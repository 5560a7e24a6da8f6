//! On-ledger state and pricing logic of a binary prediction market.
//!
//! A `Market` holds the reserves of a constant-product automated market
//! maker over a YES token and a NO token, together with the quoted
//! fixed-point prices of the two outcomes and the market's lifecycle
//! status.  Every arithmetic step of a price update is checked: a trade
//! that would overflow, exhaust a reserve, or divide by zero fails as a
//! whole and leaves the record unchanged.

pub mod laws;
pub mod market;
pub mod math;
