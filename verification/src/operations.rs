//! Trustline operation records: the kinds of operation this core tracks and
//! the one-shot status lifecycle each record follows. A record is created
//! `pending` and transitions exactly once, to `completed` or `failed`; it is
//! never deleted, so terminal states never move again.

use vstd::prelude::*;

verus! {

/// Kind of a tracked trustline operation.
#[derive(Debug, Clone, Copy, PartialEq, Eq, Structural)]
pub enum TrustlineOperationType {
    Create,
    Update,
    Remove,
}

impl TrustlineOperationType {
    /// The stored name of this kind.
    pub fn as_str(&self) -> (r: &'static str)
        ensures
            self is Create ==> r@ == "create"@,
            self is Update ==> r@ == "update"@,
            self is Remove ==> r@ == "remove"@,
    {
        match self {
            TrustlineOperationType::Create => "create",
            TrustlineOperationType::Update => "update",
            TrustlineOperationType::Remove => "remove",
        }
    }
}

/// Status of a tracked trustline operation.
#[derive(Debug, Clone, Copy, PartialEq, Eq, Structural)]
pub enum TrustlineOperationStatus {
    Pending,
    Completed,
    Failed,
}

impl TrustlineOperationStatus {
    /// The stored name of this status.
    pub fn as_str(&self) -> (r: &'static str)
        ensures
            self is Pending ==> r@ == "pending"@,
            self is Completed ==> r@ == "completed"@,
            self is Failed ==> r@ == "failed"@,
    {
        match self {
            TrustlineOperationStatus::Pending => "pending",
            TrustlineOperationStatus::Completed => "completed",
            TrustlineOperationStatus::Failed => "failed",
        }
    }
}

/// The record lifecycle: only a pending record may move, and only to a
/// terminal state.
pub open spec fn spec_valid_status_transition(
    from: TrustlineOperationStatus,
    to: TrustlineOperationStatus,
) -> bool {
    from is Pending && (to is Completed || to is Failed)
}

/// Whether a status update is allowed by the record lifecycle.
pub fn is_valid_status_transition(
    from: TrustlineOperationStatus,
    to: TrustlineOperationStatus,
) -> (r: bool)
    ensures
        r == spec_valid_status_transition(from, to),
{
    match (from, to) {
        (TrustlineOperationStatus::Pending, TrustlineOperationStatus::Completed) => true,
        (TrustlineOperationStatus::Pending, TrustlineOperationStatus::Failed) => true,
        _ => false,
    }
}

/// A record transitions exactly once: once completed or failed, no further
/// transition is allowed.
pub proof fn lemma_terminal_status_is_final(
    from: TrustlineOperationStatus,
    to: TrustlineOperationStatus,
)
    requires
        !(from is Pending),
    ensures
        !spec_valid_status_transition(from, to),
{
}

} // verus!
