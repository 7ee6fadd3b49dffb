//! What is kept of one offer: its record and its custody vault.

pub mod escrow;
pub mod vault;
