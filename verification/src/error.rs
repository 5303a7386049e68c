//! The error kinds that a protocol exchange can surface.

use vstd::prelude::*;

verus! {

/// Everything that can go wrong during one exchange.
///
/// The transport-level kinds (`ConnectionFailed`, `BodyReadError`,
/// `Timeout`) are produced by the caller that owns the real connection;
/// the remaining kinds are produced by the verified core itself.
#[derive(Clone, Copy, Debug, PartialEq, Eq, Structural)]
pub enum GeminiError {
    /// The encrypted transport could not be established.
    ConnectionFailed,
    /// Host or resource contains a line terminator, so no well-formed
    /// request line exists for them.
    MalformedRequest,
    /// The stream closed before a complete header line arrived.
    TruncatedHeader,
    /// The first two header bytes are not both ASCII digits.
    MalformedStatus,
    /// The two-digit status is not one of the protocol's defined codes.
    UnknownStatus,
    /// The byte after the status code is not a single space.
    MalformedHeader,
    /// The meta field exceeds the reader's documented cap.
    HeaderTooLong,
    /// The underlying stream failed before the body was fully read.
    BodyReadError,
    /// Header meta or body bytes are not valid UTF-8.
    InvalidEncoding,
    /// An interrupted read or write, surfaced instead of truncated data.
    Timeout,
}

} // verus!
