//! The rules of a small CosmWasm contract: a counter that anyone may
//! increment, an owner who alone may reset it and keep a whitelist of
//! addresses, and a payout of one fixed amount to every address on that
//! whitelist.
//!
//! The contract keeps one record, a [`state::State`], in a [`state::Store`].
//! Every request is a function of that record, of who sends the request and
//! of the request itself: it ends in the record that follows and a response,
//! or in a refusal that changes nothing.
//!
//! - [`contract`] holds the entry points, which work on a store.
//! - [`state`], [`whitelist`] and [`payout`] hold the steps themselves, which
//!   work on a record.
//! - [`addresses`] and [`decimal`] hold the list arithmetic and the number
//!   formatting that the steps need.
//! - [`wallets`] holds a registry of wallet addresses with its own issuer.
//! - [`laws`] states what holds of the contract whatever it is asked.
//! - [`response`] is the one place where something is believed and not
//!   proved: what `cosmwasm_std::Response` does with attributes and messages.
//!
//! Reading the record from the chain's storage and writing it back, asking
//! the ledger for a balance, and encoding answers are left to the caller. The
//! library takes and gives plain values.

pub mod addresses;
pub mod contract;
pub mod decimal;
pub mod error;
pub mod laws;
pub mod msg;
pub mod payout;
pub mod response;
pub mod state;
pub mod wallets;
pub mod whitelist;
