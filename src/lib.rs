//! Status aggregation for a file-synchronization daemon: classification of
//! folder states and file events, accumulation of remote peers' progress,
//! and the assembly of one dashboard payload from the daemon's answers.
//!
//! Completion values are kept in hundredths of a percent (0 to 10000).
use vstd::prelude::*;

pub mod aggregator;
pub mod client;
pub mod config;
pub mod cycle;
pub mod daemon;
pub mod deployment;
pub mod events;
pub mod folder;
pub mod json;
pub mod metrics;
pub mod overview;
pub mod peer;
pub mod roster;
pub mod state;
pub mod text;

verus! {

} // verus!
