//! The requests that the state machines make of their collaborators (the
//! upstream API, the store, the chat channel), and the replies they are
//! resumed with.

use crate::db::models::{
    ActiveGame, Champion, MatchHistory, NewActiveGame, NewMatchResult, NewNotificationEvent,
    NotificationEvent, Summoner,
};
use crate::db::repository::RepositoryError;
use crate::riot::client::{PlatformRoute, RegionalRoute, RiotClientError};
use crate::riot::models::{ActiveGameInfo, MatchResult};
use vstd::prelude::*;

verus! {

/// One call that a state machine wants made.
#[derive(Debug)]
pub enum Request {
    /// Upstream: the game that the player is in right now.
    GetActiveGame { puuid: String, platform: PlatformRoute },
    /// Upstream: the player's result in a finished match. The call is to be
    /// made once `delay_secs` seconds have passed.
    GetMatchResult { match_id: String, puuid: String, region: RegionalRoute, delay_secs: u64 },
    /// Upstream: the id of the player's most recent finished match.
    GetRecentMatchId { puuid: String, region: RegionalRoute },
    /// Store: every tracked player.
    GetAllSummoners,
    /// Store: the active-game records of one player.
    GetActiveGamesForSummoner { summoner_id: u128 },
    /// Store: add an active-game record.
    InsertActiveGame(NewActiveGame),
    /// Store: remove a player's active-game records for one game.
    DeleteActiveGameBySummonerAndGame { summoner_id: u128, game_id: i64 },
    /// Store: add a match result, unless the player already has one for the
    /// match.
    InsertMatchResult(NewMatchResult),
    /// Store: a player's stored result for one match.
    GetMatchHistoryByMatchId { summoner_id: u128, match_id: String },
    /// Store: a champion's name.
    GetChampionById { champion_id: i32 },
    /// Store: queue a notification.
    InsertNotificationEvent(NewNotificationEvent),
    /// Store: the queued notifications that were not delivered yet, oldest
    /// first.
    GetPendingNotificationEvents,
    /// Store: mark these notifications delivered, all or none.
    MarkNotificationsProcessed { event_ids: Vec<u128> },
    /// Channel: tell that these players started a game together. The events
    /// are the players' notifications of it.
    SendStartedSummary { summoners: Vec<Summoner>, events: Vec<NotificationEvent> },
    /// Channel: tell how these players' game ended.
    SendEndedSummary { summoners: Vec<Summoner>, events: Vec<NotificationEvent> },
}

/// What a collaborator answered.
#[derive(Debug)]
pub enum Reply {
    /// To `GetActiveGame`.
    ActiveGame(Option<ActiveGameInfo>),
    /// To `GetMatchResult`.
    MatchResult(Option<MatchResult>),
    /// To `GetRecentMatchId`.
    RecentMatchId(Option<String>),
    /// To `GetAllSummoners`.
    Summoners(Vec<Summoner>),
    /// To `GetActiveGamesForSummoner`.
    ActiveGames(Vec<ActiveGame>),
    /// To `GetMatchHistoryByMatchId`.
    MatchHistory(Option<MatchHistory>),
    /// To `GetChampionById`.
    Champion(Option<Champion>),
    /// To `GetPendingNotificationEvents`.
    PendingEvents(Vec<NotificationEvent>),
    /// The store made the change it was asked for.
    Written,
    /// The channel took the message.
    Sent,
    /// The channel did not take the message; the cause is carried as text.
    SendFailed(String),
    /// The upstream API failed.
    RiotFailed(RiotClientError),
    /// The store failed.
    RepositoryFailed(RepositoryError),
}

/// Where a state machine stands after a step: it wants a request answered
/// and will go on from the state given, or it has finished.
#[derive(Debug)]
pub enum Step<S, T> {
    Ask(S, Request),
    Done(T),
}

/// A step without its request: the state that the machine waits in, or its
/// outcome.
pub enum Progress<S, T> {
    Waiting(S),
    Finished(T),
}

impl<S, T> Step<S, T> {
    /// The step without its request.
    pub open spec fn progress(self) -> Progress<S, T> {
        match self {
            Step::Ask(state, _) => Progress::Waiting(state),
            Step::Done(outcome) => Progress::Finished(outcome),
        }
    }
}

} // verus!
