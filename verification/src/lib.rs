//! Polls a notification feed, filters it and plans desktop alerts.
//!
//! The library decides; the program around it waits, fetches and shows.

pub mod conf;
pub mod cycle;
pub mod filters;
pub mod github;
pub mod notify;
pub mod scheduler;
