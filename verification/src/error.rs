use vstd::prelude::*;

verus! {

/// Every way an invocation can fail.
///
/// All errors abort the current invocation; the operations below guarantee
/// that no ledger write happens before the failure is detected, so an error
/// always leaves the ledger exactly as it was.
#[derive(Clone, Copy, Debug, PartialEq, Eq, Structural)]
pub enum ContractError {
    /// A debit would take the sender's balance below zero.
    InsufficientBalance,
    /// A credit would exceed the maximum representable balance.
    Overflow,
    /// A human-readable address could not be canonicalized by the host.
    InvalidAddress,
    /// Contract state was read before initialization.
    Uninitialized,
}

} // verus!
