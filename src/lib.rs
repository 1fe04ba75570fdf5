//! A two-party token escrow: an initializer locks tokens in a holding account
//! controlled by a program-derived authority, and a taker later completes the
//! trade atomically.

pub mod address;
pub mod authority;
pub mod escrow;
pub mod laws;
pub mod ledger;
