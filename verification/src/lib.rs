//! An escrowed-payment ledger.
//!
//! A sender sets funds aside for a receiver, with a deadline. Until the
//! deadline the receiver may claim them; as long as they are unclaimed the
//! sender may take them back. Every payment is kept twice, under its sender
//! and under its receiver, and both copies change together.
//!
//! - `state`: addresses, coins and the payment record.
//! - `store`: the counter and the two indexes, kept in a storage of
//!   `cosmwasm_std` through `cosmwasm_storage` and `cw_storage_plus`.
//! - `msg`: requests, the context of a call, and responses.
//! - `rules`: what each request does, as functions on the state of the
//!   ledger.
//! - `contract`: the operations themselves, proved to follow the rules.
//! - `laws`: what holds of the rules for every state and request.
//! - `error`, `text`: the errors and the rendering of numbers.

pub mod contract;
pub mod error;
pub mod laws;
pub mod msg;
pub mod rules;
pub mod state;
pub mod store;
pub mod text;
