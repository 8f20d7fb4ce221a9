//! An escrow-backed marketplace ledger.
//!
//! Sellers post listings, buyers purchase them by locking funds, and funds
//! release only after a ship/receive handshake, with a fallback arbitration
//! path for disputes. The library computes and emits transfer instructions;
//! it never moves value itself. Every state transition validates its input,
//! consults the authorization policy, mutates the listing store, and returns
//! the transfer instructions that settle or refund the escrow.

pub mod error;
pub mod state;
pub mod store;
pub mod support;
pub mod coin_helpers;
pub mod auth;
pub mod funds;
pub mod queries;
pub mod msg;
pub mod transitions;
pub mod contract;
pub mod laws;
