//! The stop signal of a delivery task: a `tokio` watch channel that
//! carries a flag.

use tokio::sync::watch::{Receiver, Sender};
use vstd::prelude::*;

verus! {

/// `tokio::sync::watch::Sender`, the end of the channel that the registry
/// keeps. Nothing is known of what a value holds.
#[verifier::external_type_specification]
#[verifier::external_body]
#[verifier::reject_recursive_types(T)]
pub struct ExSender<T>(Sender<T>);

/// `tokio::sync::watch::Receiver`, the end of the channel that the task
/// waits on. Nothing is known of what a value holds.
#[verifier::external_type_specification]
#[verifier::external_body]
#[verifier::reject_recursive_types(T)]
pub struct ExReceiver<T>(Receiver<T>);

/// Calls `tokio::sync::watch::channel` with the flag down, and returns
/// both ends. Nothing is claimed of them.
#[verifier::external_body]
pub(crate) fn stop_channel() -> (ends: (Sender<bool>, Receiver<bool>)) {
    tokio::sync::watch::channel(false)
}

/// Calls `tokio::sync::watch::Sender::send` with the flag up. The result
/// tells whether the call returned `Ok`, which it does while a receiver
/// is left; nothing is claimed of it.
#[verifier::external_body]
pub(crate) fn send_stop(sender: &Sender<bool>) -> (delivered: bool) {
    sender.send(true).is_ok()
}

/// A delivery task that the registry has registered and the caller has to
/// launch.
pub struct Launch {
    pub guild: u64,
    pub channel: u64,
    /// The end of the stop signal on which the task waits.
    pub stop_signal: Receiver<bool>,
    /// Seconds to let pass before the task's first cycle.
    pub delay_seconds: u64,
}

} // verus!
