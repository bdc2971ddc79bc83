//! Issuance and management of a two-tier NFT collection: a collection token
//! plus numbered member tokens, gated on a price and on authorities derived
//! deterministically from the creator's key.

pub mod address;
pub mod error;
pub mod calls;
pub mod state;
pub mod uri;
pub mod instructions;
pub mod ledger;
pub mod program;
pub mod laws;
