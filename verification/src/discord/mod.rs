//! The chat side: what a poll of one player leads to, and the plain
//! messages.

pub mod handler;
pub mod messages;
