//! Scheduling core of a bot that posts images to chat channels: the registry
//! of running delivery tasks, the delivery task's state machine, the vote
//! count that retracts a post, and the settings and texts around them.

pub mod commands;
pub mod configuration;
pub mod constants;
pub mod delivery;
pub mod error;
pub mod layout;
pub mod persistence;
pub mod random;
pub mod registry;
pub mod retraction;
pub mod shutdown;
pub mod signal;
pub mod text;
