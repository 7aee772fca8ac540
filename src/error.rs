//! The errors of token operations.
use vstd::prelude::*;

verus! {

/// Why a token operation failed.
#[derive(Clone, Debug, PartialEq, Eq)]
pub enum TokenError {
    /// The identity does not have the shape that the token variant needs.
    InvalidIdentity,
    /// The caller is not the token's recorded admin, or an admin is already
    /// recorded.
    Unauthorized,
    /// Less than the required amount was attached.
    InsufficientFunds,
    /// The operation is not supported by this token variant.
    UnsupportedOperation,
    /// Opaque init parameters did not decode into the expected shape.
    DeserializationError,
    /// The chain acknowledged an operation without the event or attribute it
    /// documents.
    ProtocolViolation,
    /// A balance lookup failed.
    QueryFailed,
    /// Nothing is stored under the key, or no continuation is pending.
    NotFound,
    /// The chain reported that the acknowledged operation failed, with its message.
    ReplyFailed(String),
}

} // verus!
