//! A verified ledger-and-issuance engine for a tokenized investment-trust
//! product.
//!
//! The library holds the pure core of the engine: the fixed-point conversion
//! between display amounts and a token's smallest unit, the validation rules
//! for scheme and investor registration, and the atomic buy/sell/transfer
//! state transitions over the scheme and investor ledgers. Every operation
//! either applies in full or leaves the records untouched, and says so in its
//! contract.
//!
//! The host around the library supplies what the engine only decides about:
//! the durable keyed record store, caller authentication, and the primitive
//! that actually moves token value. An operation that moves value returns a
//! [`escrow::TokenTransfer`] describing exactly what the host must transfer
//! and under whose authority.

pub mod conversion;
pub mod error;
pub mod escrow;
pub mod instructions;
pub mod laws;
pub mod state;
pub mod validation;
