//! Grouped notifications: what they show, and the processor that delivers
//! them.

pub mod messages;
pub mod processor;
