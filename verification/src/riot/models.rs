//! What the upstream API reports, in the shape the tracker works on.

use crate::db::models::Timestamp;
use crate::text::clone_text;
use vstd::prelude::*;

verus! {

/// An account as the upstream API resolves it.
#[derive(Debug)]
pub struct SummonerInfo {
    pub puuid: String,
    pub game_name: String,
    pub tag_line: String,
}

impl Clone for SummonerInfo {
    fn clone(&self) -> (copy: Self)
        ensures
            copy == *self,
    {
        SummonerInfo {
            puuid: self.puuid.clone(),
            game_name: self.game_name.clone(),
            tag_line: self.tag_line.clone(),
        }
    }
}

/// A game in progress, as the upstream API reports it for one player.
#[derive(Debug)]
pub struct ActiveGameInfo {
    pub game_id: i64,
    pub champion_id: i32,
    pub game_mode: String,
    pub game_start_time: Timestamp,
}

impl Clone for ActiveGameInfo {
    fn clone(&self) -> (copy: Self)
        ensures
            copy == *self,
    {
        ActiveGameInfo {
            game_id: self.game_id,
            champion_id: self.champion_id,
            game_mode: self.game_mode.clone(),
            game_start_time: self.game_start_time,
        }
    }
}

/// One player's result in a finished match.
#[derive(Debug)]
pub struct MatchResult {
    pub match_id: String,
    pub game_id: i64,
    pub win: bool,
    pub kills: i32,
    pub deaths: i32,
    pub assists: i32,
    pub champion_id: i32,
    pub game_duration_secs: i32,
    pub game_mode: String,
    pub role: String,
    pub total_cs: i32,
    pub total_gold: i32,
    pub total_damage: i32,
    pub enemy_champion_name: Option<String>,
    pub enemy_cs: Option<i32>,
    pub enemy_gold: Option<i32>,
    pub enemy_damage: Option<i32>,
}

impl Clone for MatchResult {
    fn clone(&self) -> (copy: Self)
        ensures
            copy == *self,
    {
        MatchResult {
            match_id: self.match_id.clone(),
            game_id: self.game_id,
            win: self.win,
            kills: self.kills,
            deaths: self.deaths,
            assists: self.assists,
            champion_id: self.champion_id,
            game_duration_secs: self.game_duration_secs,
            game_mode: self.game_mode.clone(),
            role: self.role.clone(),
            total_cs: self.total_cs,
            total_gold: self.total_gold,
            total_damage: self.total_damage,
            enemy_champion_name: clone_text(&self.enemy_champion_name),
            enemy_cs: self.enemy_cs,
            enemy_gold: self.enemy_gold,
            enemy_damage: self.enemy_damage,
        }
    }
}
/// A change in a player's game state between two polls.
#[derive(Debug)]
pub enum GameStateChange {
    /// The player started a game that is not tracked yet.
    GameStarted(ActiveGameInfo),
    /// The player's game ended; its result is still to be fetched.
    /// `is_featured_mode` is set where the end was inferred from the match
    /// history because the game was never reported as active.
    GameEnded { game_id: i64, is_featured_mode: bool },
    /// Nothing changed.
    NoChange,
}

impl Clone for GameStateChange {
    fn clone(&self) -> (copy: Self)
        ensures
            copy == *self,
    {
        match self {
            GameStateChange::GameStarted(info) => GameStateChange::GameStarted(info.clone()),
            GameStateChange::GameEnded { game_id, is_featured_mode } => GameStateChange::GameEnded {
                game_id: *game_id,
                is_featured_mode: *is_featured_mode,
            },
            GameStateChange::NoChange => GameStateChange::NoChange,
        }
    }
}

} // verus!
