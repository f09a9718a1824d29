//! The ways in which an operation on the contract can fail.

use vstd::prelude::*;

verus! {

/// Why an operation was refused. A refused operation changes nothing.
#[derive(Debug, Clone, Copy, PartialEq, Eq, Structural)]
pub enum ContractError {
    /// A privileged operation was requested by someone other than the owner.
    Unauthorized,
    /// The store already holds a record, so it cannot be initialised again.
    AlreadyInitialized,
    /// The custodial balance does not cover the payout.
    InsufficientFunds,
    /// The counter or the payout total does not fit its integer type.
    Overflow,
    /// The store holds no record to work on.
    StoreUnavailable,
}

} // verus!
