//! Transactional core of an NFT marketplace: a verified state machine that
//! moves a single non-fungible asset between an owner's custody and an escrow
//! vault while tracking competing purchase offers and the value they escrow.
//!
//! The ledger substrate (record allocation, asset transfer, value transfer,
//! signature checking) is an external collaborator; this crate models its
//! transfer primitives explicitly so that every state transition can be
//! verified end to end against the custody it moves.

pub mod accounts;
pub mod ledger;
pub mod listing;
pub mod bids;
pub mod laws;
