//! Ledger state machines for a donation-pool program and a peer-to-peer
//! tipping program, with their record addressing and authorization rules.
pub mod address;
pub mod donations;
pub mod tips;
