//! The records that the store keeps.

use crate::text::clone_text;
use vstd::prelude::*;

verus! {

/// An instant: whole seconds since the Unix epoch, and the nanoseconds into
/// that second.
#[derive(Clone, Copy, Debug, PartialEq, Eq, Structural)]
pub struct Timestamp {
    pub secs: i64,
    pub nanos: u32,
}

/// `chrono::Utc::now`, read through `DateTime::timestamp` and
/// `DateTime::timestamp_subsec_nanos`: the current time of the system clock.
/// Nothing is known of it before it is read.
#[verifier::external_body]
fn system_time() -> Timestamp {
    let now = chrono::Utc::now();
    Timestamp { secs: now.timestamp(), nanos: now.timestamp_subsec_nanos() }
}

/// Whether the number of milliseconds since the Unix epoch lies in the range
/// of instants that `chrono` has a `DateTime<Utc>` for.
pub uninterp spec fn in_utc_range(millis: i64) -> bool;

/// `TimeZone::timestamp_millis_opt` of `chrono::Utc`, taken by `single` and
/// read through `DateTime::timestamp` and `DateTime::timestamp_subsec_nanos`:
/// the instant that lies `millis` milliseconds after the Unix epoch, before
/// it if negative. There is none where the number is out of range; otherwise
/// the whole seconds are the floored quotient by 1000 and the rest counts in
/// nanoseconds.
#[verifier::external_body]
fn utc_from_millis(millis: i64) -> (instant: Option<Timestamp>)
    ensures
        instant == if in_utc_range(millis) {
            Some(
                Timestamp {
                    secs: (millis / 1000) as i64,
                    nanos: ((millis % 1000) * 1_000_000) as u32,
                },
            )
        } else {
            None
        },
{
    chrono::TimeZone::timestamp_millis_opt(&chrono::Utc, millis).single().map(
        |at| Timestamp { secs: at.timestamp(), nanos: at.timestamp_subsec_nanos() },
    )
}

/// The instant that lies `millis` milliseconds after the Unix epoch, if the
/// calendar reaches that far.
pub open spec fn instant_of_millis(millis: i64) -> Option<Timestamp> {
    if in_utc_range(millis) {
        Some(
            Timestamp {
                secs: (millis / 1000) as i64,
                nanos: ((millis % 1000) * 1_000_000) as u32,
            },
        )
    } else {
        None
    }
}

impl Timestamp {
    /// The current time.
    pub fn now() -> Timestamp {
        system_time()
    }

    /// The instant that lies `millis` milliseconds after the Unix epoch, if
    /// the calendar reaches that far.
    pub fn from_millis(millis: i64) -> (instant: Option<Timestamp>)
        ensures
            instant == instant_of_millis(millis),
    {
        utc_from_millis(millis)
    }

    /// The instant as nanoseconds since the epoch.
    pub open spec fn total_nanos(self) -> int {
        self.secs * 1_000_000_000 + self.nanos
    }

    /// Whether the instant lies after `other`.
    pub fn is_after(&self, other: &Timestamp) -> (after: bool)
        ensures
            after == (self.total_nanos() > other.total_nanos()),
    {
        let mine: i128 = (self.secs as i128) * 1_000_000_000 + (self.nanos as i128);
        let theirs: i128 = (other.secs as i128) * 1_000_000_000 + (other.nanos as i128);
        mine > theirs
    }

    /// Whether at least `secs` seconds lie between `since` and `self`. An
    /// instant before `since` is not past it by any amount.
    pub fn is_past(&self, since: &Timestamp, secs: u64) -> (past: bool)
        ensures
            past == (self.total_nanos() - since.total_nanos() >= secs * 1_000_000_000),
    {
        let now: i128 = (self.secs as i128) * 1_000_000_000 + (self.nanos as i128);
        let then: i128 = (since.secs as i128) * 1_000_000_000 + (since.nanos as i128);
        now - then >= (secs as i128) * 1_000_000_000
    }
}

/// A tracked player.
#[derive(Debug)]
pub struct Summoner {
    /// The store's identifier of the player.
    pub id: u128,
    /// The upstream identifier of the account.
    pub riot_puuid: String,
    pub game_name: String,
    pub tag_line: String,
    pub region: String,
    pub created_at: Timestamp,
    pub updated_at: Timestamp,
}

impl Clone for Summoner {
    fn clone(&self) -> (copy: Self)
        ensures
            copy == *self,
    {
        Summoner {
            id: self.id,
            riot_puuid: self.riot_puuid.clone(),
            game_name: self.game_name.clone(),
            tag_line: self.tag_line.clone(),
            region: self.region.clone(),
            created_at: self.created_at,
            updated_at: self.updated_at,
        }
    }
}

/// A stored record that a player is believed to be in a game.
#[derive(Debug)]
pub struct ActiveGame {
    pub id: u128,
    pub summoner_id: u128,
    pub game_id: i64,
    pub champion_id: i32,
    pub game_mode: String,
    pub game_start_time: Timestamp,
    pub created_at: Timestamp,
}

impl Clone for ActiveGame {
    fn clone(&self) -> (copy: Self)
        ensures
            copy == *self,
    {
        ActiveGame {
            id: self.id,
            summoner_id: self.summoner_id,
            game_id: self.game_id,
            champion_id: self.champion_id,
            game_mode: self.game_mode.clone(),
            game_start_time: self.game_start_time,
            created_at: self.created_at,
        }
    }
}

/// An active-game record that is about to be stored.
#[derive(Debug)]
pub struct NewActiveGame {
    pub summoner_id: u128,
    pub game_id: i64,
    pub champion_id: i32,
    pub game_mode: String,
    pub game_start_time: Timestamp,
}

impl Clone for NewActiveGame {
    fn clone(&self) -> (copy: Self)
        ensures
            copy == *self,
    {
        NewActiveGame {
            summoner_id: self.summoner_id,
            game_id: self.game_id,
            champion_id: self.champion_id,
            game_mode: self.game_mode.clone(),
            game_start_time: self.game_start_time,
        }
    }
}

/// The stored result of a finished game.
#[derive(Debug)]
pub struct MatchHistory {
    pub id: u128,
    pub summoner_id: u128,
    pub match_id: String,
    pub game_id: i64,
    pub win: bool,
    pub kills: i32,
    pub deaths: i32,
    pub assists: i32,
    pub champion_id: i32,
    pub game_duration_secs: i32,
    pub game_mode: String,
    pub role: Option<String>,
    pub finished_at: Timestamp,
    pub created_at: Timestamp,
    pub total_cs: i32,
    pub total_gold: i32,
    pub total_damage: i32,
    pub enemy_champion_name: Option<String>,
    pub enemy_cs: Option<i32>,
    pub enemy_gold: Option<i32>,
    pub enemy_damage: Option<i32>,
}

impl Clone for MatchHistory {
    fn clone(&self) -> (copy: Self)
        ensures
            copy == *self,
    {
        MatchHistory {
            id: self.id,
            summoner_id: self.summoner_id,
            match_id: self.match_id.clone(),
            game_id: self.game_id,
            win: self.win,
            kills: self.kills,
            deaths: self.deaths,
            assists: self.assists,
            champion_id: self.champion_id,
            game_duration_secs: self.game_duration_secs,
            game_mode: self.game_mode.clone(),
            role: clone_text(&self.role),
            finished_at: self.finished_at,
            created_at: self.created_at,
            total_cs: self.total_cs,
            total_gold: self.total_gold,
            total_damage: self.total_damage,
            enemy_champion_name: clone_text(&self.enemy_champion_name),
            enemy_cs: self.enemy_cs,
            enemy_gold: self.enemy_gold,
            enemy_damage: self.enemy_damage,
        }
    }
}

/// The result of a finished game that is about to be stored.
#[derive(Debug)]
pub struct NewMatchResult {
    pub summoner_id: u128,
    pub match_id: String,
    pub game_id: i64,
    pub win: bool,
    pub kills: i32,
    pub deaths: i32,
    pub assists: i32,
    pub champion_id: i32,
    pub game_duration_secs: i32,
    pub game_mode: String,
    pub role: String,
    pub finished_at: Timestamp,
    pub total_cs: i32,
    pub total_gold: i32,
    pub total_damage: i32,
    pub enemy_champion_name: Option<String>,
    pub enemy_cs: Option<i32>,
    pub enemy_gold: Option<i32>,
    pub enemy_damage: Option<i32>,
}

impl Clone for NewMatchResult {
    fn clone(&self) -> (copy: Self)
        ensures
            copy == *self,
    {
        NewMatchResult {
            summoner_id: self.summoner_id,
            match_id: self.match_id.clone(),
            game_id: self.game_id,
            win: self.win,
            kills: self.kills,
            deaths: self.deaths,
            assists: self.assists,
            champion_id: self.champion_id,
            game_duration_secs: self.game_duration_secs,
            game_mode: self.game_mode.clone(),
            role: self.role.clone(),
            finished_at: self.finished_at,
            total_cs: self.total_cs,
            total_gold: self.total_gold,
            total_damage: self.total_damage,
            enemy_champion_name: clone_text(&self.enemy_champion_name),
            enemy_cs: self.enemy_cs,
            enemy_gold: self.enemy_gold,
            enemy_damage: self.enemy_damage,
        }
    }
}

/// A champion's name, by its upstream number.
#[derive(Debug)]
pub struct Champion {
    pub id: u128,
    pub champion_id: i32,
    pub champion_name: String,
    pub created_at: Timestamp,
}

impl Clone for Champion {
    fn clone(&self) -> (copy: Self)
        ensures
            copy == *self,
    {
        Champion {
            id: self.id,
            champion_id: self.champion_id,
            champion_name: self.champion_name.clone(),
            created_at: self.created_at,
        }
    }
}

/// A queued notification about one player's game starting or ending.
#[derive(Debug)]
pub struct NotificationEvent {
    pub id: u128,
    pub summoner_id: u128,
    /// `GAME_STARTED` or `GAME_ENDED`.
    pub event_type: String,
    pub game_id: i64,
    /// The finished match; set on `GAME_ENDED` events.
    pub match_id: Option<String>,
    pub champion_id: i32,
    pub champion_name: String,
    pub role: Option<String>,
    pub win: Option<bool>,
    pub kills: Option<i32>,
    pub deaths: Option<i32>,
    pub assists: Option<i32>,
    pub game_duration_secs: Option<i32>,
    pub game_mode: String,
    pub queue_id: Option<i32>,
    pub is_featured_mode: bool,
    pub total_cs: Option<i32>,
    pub total_gold: Option<i32>,
    pub total_damage: Option<i32>,
    pub enemy_champion_name: Option<String>,
    pub enemy_cs: Option<i32>,
    pub enemy_gold: Option<i32>,
    pub enemy_damage: Option<i32>,
    /// Set once the event has been delivered.
    pub processed: bool,
    pub created_at: Timestamp,
    pub processed_at: Option<Timestamp>,
}

impl Clone for NotificationEvent {
    fn clone(&self) -> (copy: Self)
        ensures
            copy == *self,
    {
        NotificationEvent {
            id: self.id,
            summoner_id: self.summoner_id,
            event_type: self.event_type.clone(),
            game_id: self.game_id,
            match_id: clone_text(&self.match_id),
            champion_id: self.champion_id,
            champion_name: self.champion_name.clone(),
            role: clone_text(&self.role),
            win: self.win,
            kills: self.kills,
            deaths: self.deaths,
            assists: self.assists,
            game_duration_secs: self.game_duration_secs,
            game_mode: self.game_mode.clone(),
            queue_id: self.queue_id,
            is_featured_mode: self.is_featured_mode,
            total_cs: self.total_cs,
            total_gold: self.total_gold,
            total_damage: self.total_damage,
            enemy_champion_name: clone_text(&self.enemy_champion_name),
            enemy_cs: self.enemy_cs,
            enemy_gold: self.enemy_gold,
            enemy_damage: self.enemy_damage,
            processed: self.processed,
            created_at: self.created_at,
            processed_at: self.processed_at,
        }
    }
}

/// A notification that is about to be queued.
#[derive(Debug)]
pub struct NewNotificationEvent {
    pub summoner_id: u128,
    /// `GAME_STARTED` or `GAME_ENDED`.
    pub event_type: String,
    pub game_id: i64,
    /// The finished match; set on `GAME_ENDED` events.
    pub match_id: Option<String>,
    pub champion_id: i32,
    pub champion_name: String,
    pub role: Option<String>,
    pub win: Option<bool>,
    pub kills: Option<i32>,
    pub deaths: Option<i32>,
    pub assists: Option<i32>,
    pub game_duration_secs: Option<i32>,
    pub game_mode: String,
    pub is_featured_mode: bool,
    pub total_cs: Option<i32>,
    pub total_gold: Option<i32>,
    pub total_damage: Option<i32>,
    pub enemy_champion_name: Option<String>,
    pub enemy_cs: Option<i32>,
    pub enemy_gold: Option<i32>,
    pub enemy_damage: Option<i32>,
}

impl Clone for NewNotificationEvent {
    fn clone(&self) -> (copy: Self)
        ensures
            copy == *self,
    {
        NewNotificationEvent {
            summoner_id: self.summoner_id,
            event_type: self.event_type.clone(),
            game_id: self.game_id,
            match_id: clone_text(&self.match_id),
            champion_id: self.champion_id,
            champion_name: self.champion_name.clone(),
            role: clone_text(&self.role),
            win: self.win,
            kills: self.kills,
            deaths: self.deaths,
            assists: self.assists,
            game_duration_secs: self.game_duration_secs,
            game_mode: self.game_mode.clone(),
            is_featured_mode: self.is_featured_mode,
            total_cs: self.total_cs,
            total_gold: self.total_gold,
            total_damage: self.total_damage,
            enemy_champion_name: clone_text(&self.enemy_champion_name),
            enemy_cs: self.enemy_cs,
            enemy_gold: self.enemy_gold,
            enemy_damage: self.enemy_damage,
        }
    }
}
} // verus!
