//! The error taxonomy of the library.
//!
//! Every failure surfaces to the caller as a typed value: nothing is
//! retried, logged away or replaced by a default inside the library.

use vstd::prelude::*;

use crate::envelope::PlatformErrorCodes;
use crate::transport::RawResponse;

verus! {

/// A decode failure: the field path at which decoding failed and a
/// human-readable description of what was expected there.
#[derive(Debug, Clone, PartialEq)]
pub struct DecodeError {
    pub path: String,
    pub message: String,
}

pub type Result<T> = core::result::Result<T, Error>;

/// What a call can fail with.
#[derive(Debug)]
pub enum Error {
    /// The response status was in the client-error class; the raw response
    /// is kept for inspection.
    ClientError(RawResponse),
    /// The response status was in the server-error class; the raw response
    /// is kept for inspection.
    ServerError(RawResponse),
    /// A `Content-Type` header was present and did not announce JSON; the
    /// observed header value is kept verbatim.
    InvalidContentType(String),
    /// No response was available where one was needed.
    NoResponse,
    /// The envelope decoded but carried a non-success status code.
    Bungie(PlatformErrorCodes),
    /// The body was not valid JSON, or did not match the expected shape.
    SerdeJson(DecodeError),
}

} // verus!
