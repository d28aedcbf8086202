use vstd::prelude::*;
use crate::codec::{base64_bytes_of, decode_base64};
use crate::error::{FetchError, ResolveError, TransformError};

verus! {

/// Why a request gets no image.
#[derive(Clone, Copy, Debug, PartialEq, Eq, Structural)]
pub enum Fault {
    /// The `image` parameter is missing or empty.
    MissingImage,
    /// The payload is not valid base64: the pipeline produced or stored a
    /// corrupt value.
    Corrupt,
    /// The origin fetch failed.
    FetchFailed(FetchError),
    /// The decrypt transform failed.
    DecryptFailed(TransformError),
}

/// The response to a request.
pub enum Reply {
    /// `200 OK` with these raw image bytes, served as `image/png`.
    Image(Vec<u8>),
    /// An error response.
    Rejected(Fault),
}

/// The HTTP status of a fault: client errors for what the request's input
/// explains (no key, an origin that failed, a payload that does not decode),
/// a server error for a transform that failed.
pub open spec fn fault_status(f: Fault) -> u16 {
    match f {
        Fault::MissingImage => 400,
        Fault::Corrupt => 400,
        Fault::FetchFailed(_) => 400,
        Fault::DecryptFailed(_) => 500,
    }
}

/// The text body of a fault's response.
pub open spec fn fault_text(f: Fault) -> Seq<char> {
    match f {
        Fault::MissingImage => "no image"@,
        Fault::Corrupt => "Invalid base64 string"@,
        Fault::FetchFailed(_) => "failed to fetch image"@,
        Fault::DecryptFailed(_) => "failed to decrypt image"@,
    }
}

impl Fault {
    /// The HTTP status code of this fault.
    pub fn status(&self) -> (r: u16)
        ensures
            r == fault_status(*self),
    {
        match self {
            Fault::MissingImage => 400,
            Fault::Corrupt => 400,
            Fault::FetchFailed(_) => 400,
            Fault::DecryptFailed(_) => 500,
        }
    }

    /// The text body of this fault's response.
    pub fn message(&self) -> (r: String)
        ensures
            r@ == fault_text(*self),
    {
        match self {
            Fault::MissingImage => "no image".to_owned(),
            Fault::Corrupt => "Invalid base64 string".to_owned(),
            Fault::FetchFailed(_) => "failed to fetch image".to_owned(),
            Fault::DecryptFailed(_) => "failed to decrypt image".to_owned(),
        }
    }
}

impl Reply {
    /// The HTTP status code of this reply.
    pub fn status(&self) -> (r: u16)
        ensures
            match self {
                Reply::Image(_) => r == 200,
                Reply::Rejected(f) => r == fault_status(*f),
            },
    {
        match self {
            Reply::Image(_) => 200,
            Reply::Rejected(f) => f.status(),
        }
    }

    /// Whether the key's cache entry is to be dropped: exactly when its
    /// payload turned out corrupt.
    pub fn invalidates_cache(&self) -> (r: bool)
        ensures
            r == (self matches Reply::Rejected(f) && f == Fault::Corrupt),
    {
        match self {
            Reply::Rejected(Fault::Corrupt) => true,
            _ => false,
        }
    }
}

/// The response to the outcome of a resolve.
///
/// A payload that decodes as base64 is served as its raw bytes; one that does
/// not is a corruption fault; each resolve error maps to its own fault.
pub fn respond(outcome: &Result<String, ResolveError>) -> (r: Reply)
    ensures
        match outcome {
            Ok(p) => match base64_bytes_of(p@) {
                Some(b) => r matches Reply::Image(v) && v@ == b,
                None => r matches Reply::Rejected(f) && f == Fault::Corrupt,
            },
            Err(ResolveError::Validation) => r matches Reply::Rejected(f) && f
                == Fault::MissingImage,
            Err(ResolveError::Fetch(e)) => r matches Reply::Rejected(f) && f == Fault::FetchFailed(
                *e,
            ),
            Err(ResolveError::Transform(e)) => r matches Reply::Rejected(f) && f
                == Fault::DecryptFailed(*e),
        },
{
    match outcome {
        Ok(p) => match decode_base64(p.as_str()) {
            Some(bytes) => Reply::Image(bytes),
            None => Reply::Rejected(Fault::Corrupt),
        },
        Err(ResolveError::Validation) => Reply::Rejected(Fault::MissingImage),
        Err(ResolveError::Fetch(e)) => Reply::Rejected(Fault::FetchFailed(*e)),
        Err(ResolveError::Transform(e)) => Reply::Rejected(Fault::DecryptFailed(*e)),
    }
}

} // verus!
