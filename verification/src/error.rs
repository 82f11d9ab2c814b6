//! The error taxonomy, and the classification that decides whether a feed
//! may rebuild its cursor after a failed fetch.

use vstd::prelude::*;

verus! {

/// Server error code: the running operation was interrupted.
pub const ERR_INTERRUPTED: i32 = 11601;

/// Server error code: a tailing position in a capped collection was lost.
pub const ERR_CAPPED_POSITION_LOST: i32 = 136;

/// Server error code: the server-side cursor was killed.
pub const ERR_CURSOR_KILLED: i32 = 237;

/// Everything that a driver call can fail with.
#[derive(Debug, PartialEq)]
pub enum Error {
    /// A caller-supplied argument was rejected.
    ArgumentError(String),
    /// A local operation could not be carried out.
    OperationError(String),
    /// The server answered with something other than what was asked for.
    ResponseError(String),
    /// The feed or its options are configured so that it cannot work.
    ConfigurationError(String),
    /// The connection failed at the transport level.
    NetworkError(String),
    /// The server reported a coded error.
    ServerError(i32),
    /// A payload could not be decoded.
    DecodeError(String),
}

/// Whether a server error code is on the fixed denylist of errors a change
/// feed must never resume after.
pub open spec fn spec_denylisted(code: i32) -> bool {
    code == ERR_INTERRUPTED || code == ERR_CAPPED_POSITION_LOST || code == ERR_CURSOR_KILLED
}

/// How a fetch error is classified once a feed is past its initial
/// aggregation: network errors and all server errors off the denylist may be
/// retried once, as may every error of any other kind.
pub open spec fn spec_retryable(e: Error) -> bool {
    match e {
        Error::NetworkError(_) => true,
        Error::ServerError(code) => !spec_denylisted(code),
        _ => true,
    }
}

impl Error {
    /// Classify this error for the one-shot resume decision.
    pub fn is_retryable(&self) -> (r: bool)
        ensures
            r == spec_retryable(*self),
    {
        match self {
            Error::NetworkError(_) => true,
            Error::ServerError(code) => !(*code == ERR_INTERRUPTED || *code
                == ERR_CAPPED_POSITION_LOST || *code == ERR_CURSOR_KILLED),
            _ => true,
        }
    }
}

} // verus!
