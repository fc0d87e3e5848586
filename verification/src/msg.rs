//! The messages the engine accepts and the instructions it emits. All fields
//! are plain values: the host adapter owns the wire encoding, validates
//! address strings, and decodes the payload embedded in a token transfer
//! before handing it over.

use vstd::prelude::*;

verus! {

/// Initialization input: the one accepted token contract and the owner
/// entitled to the accumulated fees, both as canonical addresses.
#[derive(Clone, Debug, PartialEq)]
pub struct InstantiateMsg {
    pub token: String,
    pub owner: String,
}

/// The operations that mutate state.
#[derive(Clone, Debug, PartialEq)]
pub enum ExecuteMsg {
    Withdraw(WithdrawMsg),
    WithdrawAll(WithdrawAllMsg),
    WithdrawFee(WithdrawFeeMsg),
    Receive(ReceiveMsg),
}

/// The read-only queries.
#[derive(Clone, Debug, PartialEq)]
pub enum QueryMsg {
    Withdrawable(WithdrawableMsg),
    Owner(),
}

/// Withdraw a specific amount from the caller's withdrawable balance.
#[derive(Clone, Debug, PartialEq)]
pub struct WithdrawMsg {
    pub amount: u128,
}

/// Withdraw the caller's entire withdrawable balance.
#[derive(Clone, Debug, PartialEq)]
pub struct WithdrawAllMsg {}

/// Collect the accumulated fee pool; restricted to the owner.
#[derive(Clone, Debug, PartialEq)]
pub struct WithdrawFeeMsg {}

/// Ask for an address's withdrawable balance.
#[derive(Clone, Debug, PartialEq)]
pub struct WithdrawableMsg {
    pub addr: String,
}

/// The instruction a depositor embeds in a token transfer.
#[derive(Clone, Debug, PartialEq)]
pub enum Cw20HookMsg {
    Deposit(DepositMsg),
}

/// The two recipients a deposit is split between.
#[derive(Clone, Debug, PartialEq)]
pub struct DepositMsg {
    pub addr1: String,
    pub addr2: String,
}

/// An inbound transfer notification: the wallet that sent the tokens, the
/// transferred amount, and the embedded instruction as decoded by the host
/// adapter — `None` when the payload did not decode as a known instruction.
#[derive(Clone, Debug, PartialEq)]
pub struct ReceiveMsg {
    pub sender: String,
    pub amount: u128,
    pub msg: Option<Cw20HookMsg>,
}

/// One outbound instruction directing the configured token contract to
/// transfer `amount` to `recipient`. Emitting it is the host's business;
/// the host's transaction model rolls the whole operation back if the
/// transfer later fails.
#[derive(Clone, Debug, PartialEq)]
pub struct TransferMsg {
    pub recipient: String,
    pub amount: u128,
}

/// The successful outcome of an operation: the outbound transfer
/// instructions to emit.
#[derive(Clone, Debug, PartialEq)]
pub struct Response {
    pub messages: Vec<TransferMsg>,
}

/// What a query returns.
#[derive(Clone, Debug, PartialEq)]
pub enum QueryAnswer {
    Owner(String),
    Withdrawable(u128),
}

} // verus!
