//! The per-request error taxonomy. Every fallible step of the pipeline
//! reports one of these variants; the transport layer maps each to an HTTP
//! status at the request boundary, so no malformed input can take the
//! process down.

use vstd::prelude::*;

verus! {

/// A failure while turning one request into its echo response.
#[derive(Clone, Copy, Debug, PartialEq, Eq, Structural)]
pub enum EchoError {
    /// A header value was not valid text.
    DecodeError,
    /// The body stream failed before it was fully drained.
    BodyReadError,
    /// The body exceeded the configured capture limit.
    BodyTooLarge,
}

/// The HTTP status that answers a request which failed with `e`.
pub open spec fn spec_status_code(e: EchoError) -> u16 {
    match e {
        EchoError::DecodeError => 400,
        EchoError::BodyReadError => 400,
        EchoError::BodyTooLarge => 413,
    }
}

/// Maps a pipeline failure to the HTTP status code of the error response.
pub fn status_code(e: &EchoError) -> (s: u16)
    ensures
        s == spec_status_code(*e),
{
    match e {
        EchoError::DecodeError => 400,
        EchoError::BodyReadError => 400,
        EchoError::BodyTooLarge => 413,
    }
}

} // verus!
