//! An on-chain accounting engine that splits incoming fungible-token
//! deposits between two recipients, withholds a protocol fee, tracks each
//! address's withdrawable balance, and lets the configured owner collect the
//! accumulated fees.
//!
//! The engine is a pure state machine: every operation takes the persistent
//! state by reference together with the caller's identity and the message
//! payload, and returns either an error or a list of outbound transfer
//! instructions. Reading and writing the host's storage, validating address
//! strings against the host's rules, and (de)serializing wire payloads are
//! the host adapter's business and happen outside this crate.

pub mod contract;
pub mod error;
pub mod msg;
pub mod split;
pub mod state;
