//! A single-asset account-balance ledger: a fungible-token store tracking a
//! total supply and per-owner balances, with owner-authenticated transfer and
//! issuer-authenticated minting.
//!
//! The ledger state machine lives in [`ledger`]; caller and account-owner
//! identities are the opaque, equality-compared values of [`identity`]; the
//! laws that hold of the ledger's transitions are stated and proved in
//! [`laws`].

pub mod identity;
pub mod laws;
pub mod ledger;

pub use identity::Identity;
pub use ledger::Ledger;
pub use ledger::LedgerError;
pub use ledger::Metadata;
