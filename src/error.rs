use vstd::prelude::*;

verus! {

/// Why the origin fetch failed.
#[derive(Clone, Copy, Debug, PartialEq, Eq, Structural)]
pub enum FetchError {
    /// The origin could not be reached or the body could not be read.
    Network,
    /// The origin answered with a non-success HTTP status.
    Status(u16),
}

/// Why the decrypt capability failed.
#[derive(Clone, Copy, Debug, PartialEq, Eq, Structural)]
pub enum TransformError {
    /// The script engine could not be started or loaded.
    Init,
    /// The decrypt script raised an error.
    Execution,
    /// The script returned something other than a string.
    Coercion,
}

/// Failure of a `resolve` for one key.
#[derive(Clone, Copy, Debug, PartialEq, Eq, Structural)]
pub enum ResolveError {
    /// The request carried no usable key.
    Validation,
    /// The origin fetch failed.
    Fetch(FetchError),
    /// The decrypt transform failed.
    Transform(TransformError),
}

} // verus!
