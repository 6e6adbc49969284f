//! A conditional-transfer escrow: a sender deposits funds earmarked for one
//! receiver; the receiver claims them, or the sender takes them back.
//!
//! - [`identity`]: the addresses of principals.
//! - [`states`]: the configuration and the record of an open deposit, with
//!   their stored forms.
//! - [`errors`]: what an operation can fail with.
//! - [`address`]: the derived addresses of vaults and records.
//! - [`transfer`]: value movements, their authorisation, and the instruction
//!   that carries one to the ledger.
//! - [`instructions`]: the five operations, each as the checks on its
//!   accounts and the decision it takes.
//! - [`ledger`]: balances, open records and configuration, on which each
//!   operation takes effect as a whole or not at all.
//! - [`laws`]: what holds of the escrow whatever its callers do.

pub mod address;
pub mod errors;
pub mod identity;
pub mod instructions;
pub mod laws;
pub mod ledger;
pub mod states;
mod table;
pub mod transfer;
