use vstd::prelude::*;

verus! {

/// Every way an entry point of the orchestrator can fail.
///
/// `SendFailed` and `ExecuteFailed` report that the outbound channel refused
/// the cross-chain program; both leave the ledger untouched, so the caller
/// may simply retry. `DuplicateOrCompleted` rejects a payment whose id is
/// already `Ongoing` or `Done`. `Unauthorized` rejects an outcome report from
/// anyone but the owner.
#[derive(Clone, Copy, PartialEq, Eq, Structural, Debug)]
pub enum RuntimeError {
    /// The outbound channel rejected the program at send time.
    SendFailed,
    /// The host reported a dispatch-adjacent failure at send time.
    ExecuteFailed,
    /// A payment with this id is already `Ongoing` or `Done`.
    DuplicateOrCompleted,
    /// A callback came from an account other than the owner.
    Unauthorized,
}

} // verus!
