//! An escrow-mediated marketplace engine: single-item sell listings ("orders")
//! are matched against competing purchase offers ("bids") for uniquely
//! identified digital assets. The engine owns the order/bid state machine and
//! returns the value- and asset-movement instructions that the host executes
//! atomically with each state transition.

pub mod engine;
pub mod laws;
pub mod error;
pub mod store;
pub mod types;
