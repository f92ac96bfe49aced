//! Custody-and-lifecycle ledger for a peer-to-peer parcel delivery marketplace.
//!
//! The records (platform, carriers, packages and escrow vaults) and every
//! transition between their states are verified here; moving value between
//! custody holders is described by the payouts that the transitions return.

pub mod address;
pub mod carrier;
pub mod error;
pub mod escrow;
pub mod identity;
pub mod laws;
pub mod package;
pub mod platform;
