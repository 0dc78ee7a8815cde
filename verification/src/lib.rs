//! Value-distribution and settlement-batch construction.
//!
//! The library validates a request that carries a list of monetary values
//! (either literal amounts or percentage shares of a total), resolves it into
//! a concrete per-recipient amount list, pairs the amounts with recipient
//! addresses into an ordered transfer batch, and maps every outcome to a
//! uniform status/message response.

pub mod batch;
pub mod config;
pub mod flow;
pub mod services;
pub mod sums;
pub mod types;
