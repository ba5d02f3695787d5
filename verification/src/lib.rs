//! Core of a remittance backend that talks to a Stellar-style ledger gateway:
//! account and amount validation, a retrying ledger-client state machine,
//! trustline lifecycle checks, and payment transaction building and signing.

pub mod amount;
pub mod client;
pub mod config;
pub mod crypto;
pub mod encode;
pub mod errors;
pub mod operations;
pub mod payment;
pub mod strkey;
pub mod text;
pub mod trustline;
pub mod types;
pub mod xdr;
