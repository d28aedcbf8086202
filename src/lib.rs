//! Cache-aside gateway core for serving decrypted images.
//!
//! The library decides; the host performs the I/O. A request's key is taken
//! from the query string, a [`pipeline::Resolve`] walks it through cache lookup,
//! single-flight registration, fetch, decrypt and cache write, and
//! [`reply::respond`] turns the outcome into a response.

pub mod codec;
pub mod error;
pub mod flight;
pub mod pipeline;
pub mod query;
pub mod reply;
