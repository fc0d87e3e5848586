//! The failures an operation can signal. Every error is terminal for the
//! invoking operation and no state mutation survives it.

use vstd::prelude::*;

verus! {

/// Why an operation was rejected.
#[derive(Clone, Debug, PartialEq)]
pub enum ContractError {
    /// The caller is not the principal the operation requires — the
    /// configured token for a deposit notification, the owner for fee
    /// collection — or an inbound payload could not be read as an
    /// authorized instruction.
    Unauthorized {},
    /// A withdrawal was requested for a zero amount.
    InvalidZeroAmount {},
    /// A withdrawal was requested for more than the caller's withdrawable
    /// balance.
    InsufficientAmount {},
}

} // verus!
