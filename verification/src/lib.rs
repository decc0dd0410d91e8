//! Resilient multi-connection event-ingestion core for publish/subscribe
//! sensor monitoring: topic-pattern matching, per-sensor decision policies
//! with edge detection, a per-message dispatcher, and the session step
//! logic that drives reconnection and re-subscription.

use vstd::prelude::*;

pub mod config;
pub mod dispatch;
pub mod notify;
pub mod policy;
pub mod session;
pub mod text;
pub mod topic;

verus! {

/// Keep-alive interval, in seconds, for every broker connection.
pub const KEEP_ALIVE_SECS: u64 = 30;

/// Backoff, in seconds, after a transient transport error.
pub const BACKOFF_SECS: u64 = 2;

} // verus!
