//! Limits and fixed values shared by the whole crate.

use vstd::prelude::*;

verus! {

/// Lower bound of every wait between two posts, in minutes.
pub const MINIMUM_TIMEOUT_MINUTES: u64 = 3;

/// Upper bound of a configured wait, in minutes (twelve hours).
pub const MAXIMUM_TIMEOUT_MINUTES: u64 = 720;

/// Wait that applies when a channel has none configured, in minutes.
pub const DEFAULT_TIMEOUT_MINUTES: u64 = 40;

/// Number of distinct voters that retracts a post.
pub const DELETE_QUORUM: usize = 4;

/// Width of the window from which a start-up delay is drawn, in seconds.
pub const STARTUP_JITTER_SECONDS: u64 = 180;

/// Time after which the votes on a post are no longer collected, in minutes.
pub const VOTE_WINDOW_MINUTES: u64 = 40;

} // verus!
