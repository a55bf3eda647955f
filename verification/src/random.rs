//! Waits and start-up delays, some of them drawn at random.

use rand::Rng;
use vstd::prelude::*;
use crate::configuration::TimeoutMode;
use crate::constants::{
    DEFAULT_TIMEOUT_MINUTES, MINIMUM_TIMEOUT_MINUTES, STARTUP_JITTER_SECONDS,
};

verus! {

/// Calls `rand::Rng::gen_range` on the thread's generator with the range
/// `low..=high`. The contract claims that the number drawn lies in that
/// range, which is all that is known of it. An empty range, on which
/// `gen_range` panics, is excluded.
#[verifier::external_body]
fn random_between(low: u64, high: u64) -> (drawn: u64)
    requires
        low <= high,
    ensures
        low <= drawn <= high,
{
    rand::thread_rng().gen_range(low..=high)
}

/// The timeout that applies: the configured one, or the default.
pub open spec fn effective_timeout(timeout: Option<u64>) -> u64 {
    match timeout {
        Some(minutes) => minutes,
        None => DEFAULT_TIMEOUT_MINUTES,
    }
}

/// The shortest wait that the settings allow, in minutes.
pub open spec fn delay_low(timeout: Option<u64>, mode: Option<TimeoutMode>) -> u64 {
    match mode {
        Some(TimeoutMode::Random) => MINIMUM_TIMEOUT_MINUTES,
        _ => effective_timeout(timeout),
    }
}

/// The longest wait that the settings allow, in minutes.
pub open spec fn delay_high(timeout: Option<u64>, mode: Option<TimeoutMode>) -> u64 {
    match mode {
        Some(TimeoutMode::Random) => if effective_timeout(timeout) < MINIMUM_TIMEOUT_MINUTES {
            MINIMUM_TIMEOUT_MINUTES
        } else {
            effective_timeout(timeout)
        },
        _ => effective_timeout(timeout),
    }
}

/// The range of waits that the settings allow. A missing timeout counts as
/// the default and a missing mode as `Normal`. In `Normal` mode the range
/// holds the timeout alone. In `Random` mode it reaches from the global
/// minimum to the timeout, and holds the minimum alone where the timeout
/// is under it.
pub fn delay_range(timeout: Option<u64>, mode: Option<TimeoutMode>) -> (range: (u64, u64))
    ensures
        range.0 == delay_low(timeout, mode),
        range.1 == delay_high(timeout, mode),
        range.0 <= range.1,
{
    let minutes = match timeout {
        Some(minutes) => minutes,
        None => DEFAULT_TIMEOUT_MINUTES,
    };
    match mode {
        Some(TimeoutMode::Random) => {
            if minutes < MINIMUM_TIMEOUT_MINUTES {
                (MINIMUM_TIMEOUT_MINUTES, MINIMUM_TIMEOUT_MINUTES)
            } else {
                (MINIMUM_TIMEOUT_MINUTES, minutes)
            }
        },
        _ => (minutes, minutes),
    }
}

/// The wait before the next post, in minutes: the one value of the range
/// where it holds one, else a number drawn from it.
pub fn sleep_minutes(timeout: Option<u64>, mode: Option<TimeoutMode>) -> (minutes: u64)
    ensures
        delay_low(timeout, mode) <= minutes <= delay_high(timeout, mode),
{
    let (low, high) = delay_range(timeout, mode);
    if low == high {
        low
    } else {
        random_between(low, high)
    }
}

/// A delay in seconds for a task that starts together with many others,
/// drawn from the start-up window.
pub fn startup_jitter() -> (seconds: u64)
    ensures
        seconds < STARTUP_JITTER_SECONDS,
{
    random_between(0, STARTUP_JITTER_SECONDS - 1)
}

/// A wait in `Random` mode is never under the global minimum, and never
/// over the timeout unless the timeout itself is under the minimum, in
/// which case the wait is the minimum.
pub proof fn random_delay_within_limits(timeout: u64, minutes: u64)
    requires
        delay_low(Some(timeout), Some(TimeoutMode::Random)) <= minutes <= delay_high(
            Some(timeout),
            Some(TimeoutMode::Random),
        ),
    ensures
        MINIMUM_TIMEOUT_MINUTES <= minutes,
        timeout >= MINIMUM_TIMEOUT_MINUTES ==> minutes <= timeout,
        timeout < MINIMUM_TIMEOUT_MINUTES ==> minutes == MINIMUM_TIMEOUT_MINUTES,
{
}

/// A wait in `Normal` mode is the timeout itself.
pub proof fn normal_delay_is_timeout(timeout: u64, minutes: u64)
    requires
        delay_low(Some(timeout), Some(TimeoutMode::Normal)) <= minutes <= delay_high(
            Some(timeout),
            Some(TimeoutMode::Normal),
        ),
    ensures
        minutes == timeout,
{
}

} // verus!
