//! Checks run by a cross-chain bridge's recipient script: that a claimed
//! burn of wrapped tokens really took place, and the hash that names the
//! bridge's lock script for an asset.

pub mod burn;
pub mod hash;
pub mod lock_hash;
pub mod molecule_encoding;
