//! A minimal local scheduler for desktop notifications.
//!
//! A configuration lists named notification rules, each with a cron
//! expression. Once per second the scheduler asks every rule for its next
//! occurrence and requests a notification for each rule whose occurrence falls
//! in the current second.

pub mod config;
pub mod error;
pub mod pacing;
pub mod recurrence;
pub mod scheduler;
pub mod time;
