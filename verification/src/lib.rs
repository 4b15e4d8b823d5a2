//! An NFT contract that extends the standard cw721 token interface with a
//! metadata payload (native-currency amounts and fungible-token references)
//! and one extra state-mutating operation, `UpdateMetadata`, that replaces a
//! token's stored URI and metadata after mint.
//!
//! Token lifecycle work (ownership, transfers, enumeration, storage) belongs
//! to the base cw721 ledger. This crate models that ledger as an explicit
//! in-memory value, [`ledger::TokenLedger`], so the one original piece of
//! logic — authorizing and applying a metadata update — and the dispatch
//! around it are verified against a mathematical view of the state. The
//! binding to the host runtime's durable storage lives outside the library.

pub mod contract;
pub mod errors;
pub mod laws;
pub mod ledger;
pub mod metadata;
pub mod msg;
pub mod order;
