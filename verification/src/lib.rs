//! Game-session tracking for a roster of players, and grouped notifications
//! about the games they start and finish.
//!
//! The crate does no I/O. The tracker, the poll of a player and the
//! notification processor are state machines: each step hands back the next
//! request for a collaborator (the upstream API, the store, the chat
//! channel) and is resumed with the collaborator's reply.

pub mod config;
pub mod db;
pub mod discord;
pub mod exchange;
pub mod notification;
pub mod riot;
pub mod text;

pub use config::{parse_summoner_names, Config, ConfigError, SummonerConfig};
pub use db::repository::{MemoryRepository, RepositoryError};
pub use riot::client::{RiotClient, RiotClientError};
pub use riot::tracker::{GameTracker, TrackerError};
