//! The upstream game API: its data, its routes, and the per-player tracker.

pub mod client;
pub mod models;
pub mod tracker;
