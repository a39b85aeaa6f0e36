//! Composable on-chain contract modules for an NFT ("seat") and collection
//! ("hub") marketplace: single-owner access control, versioned metadata, an
//! NFT token ledger, fixed-price listings, irreversible redemption locking,
//! and time-boxed primary sale campaigns, combined into deployable contracts
//! by a composition layer that routes tagged messages to the addressed module
//! and merges partial responses into one outward response.
//!
//! Each module owns its state as plain values; a call receives the execution
//! context (caller address, funds, logical time) as arguments and either
//! completes, leaving the state consistent, or fails without touching it.

pub mod types;
pub mod response;
pub mod ownable;
pub mod metadata;
pub mod token;
pub mod redeemable;
pub mod sellable;
pub mod sales;
pub mod hub;
pub mod seat;
pub mod laws;
