//! The entry points a host calls, one per instruction: what the caller's
//! environment resolved comes in as one value, and the offers do the rest.

pub mod deposit;
pub mod maker;
pub mod refund;
pub mod taker;
