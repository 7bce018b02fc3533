//! The failures that a request can end in.
use vstd::prelude::*;

verus! {

/// Why a request, or a restore of persisted state, failed.
#[derive(PartialEq, Eq, Structural, Clone, Copy, Debug)]
pub enum ErrorKind {
    /// Malformed wire bytes or text.
    Decode,
    /// The signer of a transaction could not be recovered.
    BadSignature,
    /// A replayed or out-of-order nonce.
    NonceTooLow,
    /// The value-transfer backend failed or refused.
    BackendFailure,
    /// A receipt or account lookup found nothing.
    NotFound,
    /// Persisted state does not describe a valid state.
    StateCorrupt,
}

impl ErrorKind {
    /// A short name of the failure, for a response's error message.
    pub fn message(&self) -> (r: &'static str) {
        match self {
            ErrorKind::Decode => "malformed input",
            ErrorKind::BadSignature => "bad signature",
            ErrorKind::NonceTooLow => "nonce too low",
            ErrorKind::BackendFailure => "backend failure",
            ErrorKind::NotFound => "not found",
            ErrorKind::StateCorrupt => "state corrupt",
        }
    }
}

} // verus!
