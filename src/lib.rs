//! A two-party token-swap escrow: the record codec, the derivation of the
//! program's custody authority, and the decisions of the Init and Exchange
//! operations, each proved against its contract.
pub mod error;
pub mod ledger;
pub mod processor;
pub mod state;
