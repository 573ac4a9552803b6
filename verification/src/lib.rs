//! Peg maintenance for a stable channel: exact money types, balance
//! reconciliation and the stability decision.

pub mod audit;
pub mod channel;
pub mod money;
pub mod node;
pub mod policy;
pub mod rounding;
pub mod stable;
pub mod tracker;
