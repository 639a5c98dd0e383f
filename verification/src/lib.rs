//! Media-player discovery and event-synchronization service.
//!
//! The library holds the verified core of the service: metadata rendering,
//! snapshot building from per-endpoint query outcomes, the discovery and
//! reconnection state machine, and the command planner. The asynchronous
//! bus plumbing around it hands the core plain values and performs the
//! actions the core decides on.

pub mod command;
pub mod discovery;
pub mod metadata;
pub mod power;
pub mod snapshot;
pub mod text;
pub mod utils;
pub mod volume;
