//! Accounting core of a pay-per-alert content marketplace.
//!
//! Three ledgers share one money flow: publishers stake collateral and submit
//! alerts, subscribers prepay a balance and are charged per delivered alert,
//! and every charge is split between a treasury fee and publisher revenue.

pub mod alerts;
pub mod arith;
pub mod custody;
pub mod error;
pub mod identity;
pub mod publisher;
pub mod slot;
pub mod subscription;
pub mod text;
