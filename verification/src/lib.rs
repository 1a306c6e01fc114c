//! An on-ledger registry of uniquely identified digital assets ("kitties").
//!
//! Each asset is owned by exactly one account and carries an immutable 16-byte
//! attribute blob (its DNA), an immutable gender derived from that blob, and an
//! optional sale price. The registry offers five guarded transition operations
//! — create, set-price, transfer, buy, breed — each of which validates all of
//! its preconditions first and then either applies every write or none.

pub mod dna;
pub mod errors;
pub mod laws;
pub mod registry;
pub mod rpc;
