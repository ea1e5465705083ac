//! A two-party escrow: a seller opens an order whose funds sit in a vault, a
//! buyer deposits the agreed amount, and the vault releases it to the seller's
//! payout account once the deposit is recorded.

pub mod address;
pub mod escrow;
pub mod indexing;
pub mod laws;
pub mod order;
