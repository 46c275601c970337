//! Keeps DNS address records pointed at the current public IPv4 address.
//!
//! The library holds the decisions of a reconciliation pass and of the
//! daemon that repeats it; the network calls are made by the caller, which
//! hands their results back in plain values.

pub mod error;
pub mod opts;
pub mod cache;
pub mod outcome;
pub mod cdu;
pub mod retry;
pub mod daemon;
