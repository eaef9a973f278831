//! Storage readiness protocol: locate the application's data directory,
//! wait for an externally created database file to appear, connect to it
//! with bounded retries, and publish the resulting handle exactly once.
//!
//! The protocol itself never performs I/O: it is a family of state machines
//! that a thin driver feeds with observations (does the file exist, did the
//! connection attempt succeed) and that answer with the next action to take
//! (wait for a given duration, attempt a connection, publish, abort).

pub mod config;
pub mod establisher;
pub mod locator;
pub mod protocol;
pub mod reporter;
pub mod waiter;
