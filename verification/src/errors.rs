//! Closed error taxonomy of the ledger core.
//!
//! Callers branch on the variant to decide whether a failure is definitive
//! (`InvalidAddress`, `AccountNotFound`, `ValidationError`, `SigningError`,
//! `SubmissionRejected`) or transient (`NetworkError`, `TimeoutError`).

use vstd::prelude::*;

verus! {

/// Every failure the ledger core can report.
#[derive(Debug, Clone)]
pub enum StellarError {
    /// The identifier failed syntactic validation; no network call was made.
    InvalidAddress { address: String },
    /// The gateway definitively reported that the account does not exist.
    AccountNotFound { account_id: String },
    /// A transport-level failure, surfaced after retry exhaustion.
    NetworkError { message: String },
    /// The configured request timeout elapsed, surfaced after retry exhaustion.
    TimeoutError { message: String },
    /// Malformed amount or operation parameters; never retried.
    ValidationError { message: String },
    /// Malformed key material; never retried.
    SigningError { message: String },
    /// The ledger rejected a submitted transaction; carries the gateway's
    /// structured error payload. Never retried automatically.
    SubmissionRejected { payload: String },
}

impl StellarError {
    /// A transient error may be retried; every other variant is definitive.
    pub open spec fn spec_is_transient(&self) -> bool {
        self is NetworkError || self is TimeoutError
    }

    /// Whether this failure may be retried.
    pub fn is_transient(&self) -> (r: bool)
        ensures
            r == self.spec_is_transient(),
    {
        match self {
            StellarError::NetworkError { .. } => true,
            StellarError::TimeoutError { .. } => true,
            _ => false,
        }
    }
}

} // verus!
