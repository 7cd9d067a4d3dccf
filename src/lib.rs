//! Storage accessors of a mock price oracle: typed fields over a ledger
//! host's two storage tiers, with the keys and lifetimes each field uses.
pub mod host;
pub mod keys;
pub mod storage;
pub mod laws;
