//! The per-player tracker: it compares what the upstream API reports with
//! what the store holds, classifies the difference, and drives the writes
//! that follow from it.

use crate::db::models::{ActiveGame, NewActiveGame, NewMatchResult, Summoner, Timestamp};
use crate::db::repository::RepositoryError;
use crate::exchange::{Progress, Reply, Request, Step};
use crate::riot::client::{
    lowercase, platform_of, regional_of, PlatformRoute, RegionalRoute, RiotClient,
    RiotClientError,
};
use crate::riot::models::{ActiveGameInfo, GameStateChange, MatchResult};
use crate::text::{
    chars_of, clone_text, decimal, find_first, is_first_at, parse_i64_from, parsed_i64, push_decimal,
};
use vstd::prelude::*;

verus! {

/// Why a poll of one player failed.
#[derive(Debug)]
pub enum TrackerError {
    Database(RepositoryError),
    RiotApi(RiotClientError),
}

impl TrackerError {
    /// The message of the error, as a sequence of characters.
    pub open spec fn message_text(self) -> Seq<char> {
        match self {
            TrackerError::Database(e) => "Database error: "@ + e.message_text(),
            TrackerError::RiotApi(e) => "Riot API error: "@ + e.message_text(),
        }
    }

    /// The message of the error.
    pub fn message(&self) -> (text: String)
        ensures
            text@ == self.message_text(),
    {
        match self {
            TrackerError::Database(e) => {
                let mut text = String::from_str("Database error: ");
                let cause = e.message();
                text.append(cause.as_str());
                text
            },
            TrackerError::RiotApi(e) => {
                let mut text = String::from_str("Riot API error: ");
                let cause = e.message();
                text.append(cause.as_str());
                text
            },
        }
    }
}

/// How often the result of a finished game is asked for before it is given
/// up.
pub const MATCH_FETCH_ATTEMPTS: u32 = 6;

/// The seconds to wait before asking again for a result that was not there.
pub const MATCH_FETCH_DELAY_SECS: u64 = 10;

/// The game id that a match id names: what follows its first underscore,
/// read as a number. A match id of another form names none.
pub open spec fn game_id_of(match_id: Seq<char>) -> Option<i64> {
    if match_id.contains('_') {
        let at = choose|i: int| is_first_at(match_id, '_', i);
        parsed_i64(match_id.skip(at + 1))
    } else {
        None
    }
}

/// The change that one observation amounts to, where the two facts decide
/// it: `current` is the game the upstream API reports, `recorded` the game of
/// the player's first active-game record. Where neither shows a game the
/// match history has to be asked, and the result is `None`.
pub open spec fn classify(current: Option<ActiveGameInfo>, recorded: Option<i64>) -> Option<
    GameStateChange,
> {
    match (current, recorded) {
        (Some(info), None) => Some(GameStateChange::GameStarted(info)),
        (Some(info), Some(game_id)) => if info.game_id != game_id {
            Some(GameStateChange::GameEnded { game_id, is_featured_mode: false })
        } else {
            Some(GameStateChange::NoChange)
        },
        (None, Some(game_id)) => Some(
            GameStateChange::GameEnded { game_id, is_featured_mode: false },
        ),
        (None, None) => None,
    }
}

/// The change that the match history amounts to where neither the upstream
/// API nor the store shows a game: a most recent match that is not stored
/// yet, and whose id names a game, has ended.
pub open spec fn classify_history(recent: Option<String>, stored: bool) -> GameStateChange {
    match recent {
        Some(match_id) => match game_id_of(match_id@) {
            Some(game_id) if !stored => GameStateChange::GameEnded {
                game_id,
                is_featured_mode: true,
            },
            _ => GameStateChange::NoChange,
        },
        None => GameStateChange::NoChange,
    }
}

/// The game of the first record, if there is a record.
pub open spec fn first_tracked(games: Seq<ActiveGame>) -> Option<i64> {
    if games.len() > 0 {
        Some(games[0].game_id)
    } else {
        None
    }
}

/// What the check of a player's game state is waiting for.
#[derive(Debug)]
pub enum CheckState {
    /// The game that the upstream API reports.
    ActiveGame,
    /// The player's active-game records.
    TrackedGames { current: Option<ActiveGameInfo> },
    /// The id of the player's most recent finished match.
    RecentMatchId,
    /// The stored result for that match, if there is one.
    MatchHistory { match_id: String },
}

/// What the handling of a started game is waiting for.
#[derive(Debug)]
pub enum StartedState {
    /// The active-game record of this game being stored.
    Insert { game_info: ActiveGameInfo },
}

/// What the handling of an ended game is waiting for.
#[derive(Debug)]
pub enum EndedState {
    /// The active-game record of the game being removed.
    Delete { game_id: i64, max_retries: u32 },
    /// The result of the game's match, asked for `attempt` times before.
    Fetch { game_id: i64, attempt: u32, max_retries: u32 },
    /// The result being stored; it arrived at `finished_at`.
    Store { result: MatchResult, finished_at: Timestamp },
}

/// The outcome of a check.
pub type CheckStep = Step<CheckState, Result<GameStateChange, TrackerError>>;

/// The outcome of handling a started game.
pub type StartedStep = Step<StartedState, Result<(), TrackerError>>;

/// The outcome of handling an ended game.
pub type EndedStep = Step<EndedState, Result<Option<MatchResult>, TrackerError>>;

/// The outcome of handling an ended game, without the request.
pub type EndedProgress = Progress<EndedState, Result<Option<MatchResult>, TrackerError>>;

/// Where the fetch of a result stands before the attempt numbered `attempt`,
/// counted from zero: waiting for that attempt's answer, or finished without
/// a result once `max_retries` attempts have been made.
pub open spec fn fetch_progress(game_id: i64, attempt: int, max_retries: u32) -> EndedProgress {
    if 0 <= attempt < max_retries {
        Progress::Waiting(EndedState::Fetch { game_id, attempt: attempt as u32, max_retries })
    } else {
        Progress::Finished(Ok(None))
    }
}

/// One step of handling an ended game: where it goes from `state` on
/// `reply`, received at the time `now`.
///
/// Once the record is removed the result is asked for, up to `max_retries`
/// times. A result that arrives is stored, with the time of its arrival as
/// the time the game finished, and is the outcome whatever the store answers
/// to that. A failure before that ends the handling with the failure. A reply
/// that answers another question leaves the handling where it is.
pub open spec fn ended_next(state: EndedState, reply: Reply, now: Timestamp) -> EndedProgress {
    match state {
        EndedState::Delete { game_id, max_retries } => match reply {
            Reply::Written => fetch_progress(game_id, 0, max_retries),
            Reply::RepositoryFailed(e) => Progress::Finished(Err(TrackerError::Database(e))),
            Reply::RiotFailed(e) => Progress::Finished(Err(TrackerError::RiotApi(e))),
            _ => Progress::Waiting(state),
        },
        EndedState::Fetch { game_id, attempt, max_retries } => match reply {
            Reply::MatchResult(Some(result)) => Progress::Waiting(
                EndedState::Store { result, finished_at: now },
            ),
            Reply::MatchResult(None) => fetch_progress(game_id, attempt + 1, max_retries),
            Reply::RepositoryFailed(e) => Progress::Finished(Err(TrackerError::Database(e))),
            Reply::RiotFailed(e) => Progress::Finished(Err(TrackerError::RiotApi(e))),
            _ => Progress::Waiting(state),
        },
        EndedState::Store { result, finished_at } => Progress::Finished(Ok(Some(result))),
    }
}

/// The tracker of one region's players.
#[derive(Debug)]
pub struct GameTracker {
    pub default_region: String,
}

impl GameTracker {
    pub fn new(default_region: String) -> (tracker: Self)
        ensures
            tracker.default_region == default_region,
    {
        GameTracker { default_region }
    }

    /// The platform that serves the tracker's region.
    pub open spec fn platform(self) -> PlatformRoute {
        platform_of(lowercase(self.default_region@))
    }

    /// The regional cluster that serves the tracker's region.
    pub open spec fn regional(self) -> RegionalRoute {
        regional_of(lowercase(self.default_region@))
    }

    /// The id under which the upstream API keeps the match of a game: the
    /// platform's name, an underscore, the game's number.
    pub open spec fn match_id_text(self, game_id: i64) -> Seq<char> {
        self.platform().name() + "_"@ + decimal(game_id as int)
    }

    /// The id under which the upstream API keeps the match of a game.
    pub fn match_id(&self, game_id: i64) -> (id: String)
        ensures
            id@ == self.match_id_text(game_id),
    {
        let platform = RiotClient::platform_for_region(self.default_region.as_str());
        let mut id = String::from_str(platform.as_str());
        id.append("_");
        push_decimal(&mut id, game_id);
        id
    }

    /// The request that a check in `state` is waiting on.
    pub open spec fn check_request(self, summoner: Summoner, state: CheckState) -> Request {
        match state {
            CheckState::ActiveGame => Request::GetActiveGame {
                puuid: summoner.riot_puuid,
                platform: self.platform(),
            },
            CheckState::TrackedGames { current } => Request::GetActiveGamesForSummoner {
                summoner_id: summoner.id,
            },
            CheckState::RecentMatchId => Request::GetRecentMatchId {
                puuid: summoner.riot_puuid,
                region: self.regional(),
            },
            CheckState::MatchHistory { match_id } => Request::GetMatchHistoryByMatchId {
                summoner_id: summoner.id,
                match_id,
            },
        }
    }

    /// One step of the check: where it goes from `state` on `reply`.
    ///
    /// A failure ends the check with that failure. The reply that answers
    /// the pending request moves the check on. Any other reply leaves it
    /// where it is, and the request is made again.
    pub open spec fn check_step(self, summoner: Summoner, state: CheckState, reply: Reply)
        -> CheckStep {
        match (state, reply) {
            (_, Reply::RiotFailed(e)) => Step::Done(Err(TrackerError::RiotApi(e))),
            (_, Reply::RepositoryFailed(e)) => Step::Done(Err(TrackerError::Database(e))),
            (CheckState::ActiveGame, Reply::ActiveGame(current)) => {
                let next = CheckState::TrackedGames { current };
                Step::Ask(next, self.check_request(summoner, next))
            },
            (CheckState::TrackedGames { current }, Reply::ActiveGames(games)) => {
                match classify(current, first_tracked(games@)) {
                    Some(change) => Step::Done(Ok(change)),
                    None => Step::Ask(
                        CheckState::RecentMatchId,
                        self.check_request(summoner, CheckState::RecentMatchId),
                    ),
                }
            },
            (CheckState::RecentMatchId, Reply::RecentMatchId(None)) => Step::Done(
                Ok(GameStateChange::NoChange),
            ),
            (CheckState::RecentMatchId, Reply::RecentMatchId(Some(match_id))) => {
                let next = CheckState::MatchHistory { match_id };
                Step::Ask(next, self.check_request(summoner, next))
            },
            (CheckState::MatchHistory { match_id }, Reply::MatchHistory(stored)) => Step::Done(
                Ok(classify_history(Some(match_id), stored is Some)),
            ),
            (state, _) => Step::Ask(state, self.check_request(summoner, state)),
        }
    }

    /// The request that a check in `state` is waiting on.
    pub fn pending_check_request(&self, summoner: &Summoner, state: &CheckState) -> (request:
        Request)
        ensures
            request == self.check_request(*summoner, *state),
    {
        match state {
            CheckState::ActiveGame => Request::GetActiveGame {
                puuid: summoner.riot_puuid.clone(),
                platform: RiotClient::platform_for_region(self.default_region.as_str()),
            },
            CheckState::TrackedGames { current } => Request::GetActiveGamesForSummoner {
                summoner_id: summoner.id,
            },
            CheckState::RecentMatchId => Request::GetRecentMatchId {
                puuid: summoner.riot_puuid.clone(),
                region: RiotClient::regional_for_region(self.default_region.as_str()),
            },
            CheckState::MatchHistory { match_id } => Request::GetMatchHistoryByMatchId {
                summoner_id: summoner.id,
                match_id: match_id.clone(),
            },
        }
    }

    fn ask_check(&self, summoner: &Summoner, state: CheckState) -> (step: CheckStep)
        ensures
            step == Step::<CheckState, Result<GameStateChange, TrackerError>>::Ask(
                state,
                self.check_request(*summoner, state),
            ),
    {
        let request = self.pending_check_request(summoner, &state);
        Step::Ask(state, request)
    }

    /// Begins the check of a player's game state: the upstream API is asked
    /// for the game the player is in.
    pub fn check_summoner_game_state(&self, summoner: &Summoner) -> (step: CheckStep)
        ensures
            step == Step::<CheckState, Result<GameStateChange, TrackerError>>::Ask(
                CheckState::ActiveGame,
                self.check_request(*summoner, CheckState::ActiveGame),
            ),
    {
        self.ask_check(summoner, CheckState::ActiveGame)
    }

    /// Goes on with the check of a player's game state, on the reply to its
    /// last request.
    pub fn resume_check(&self, summoner: &Summoner, state: CheckState, reply: Reply) -> (step:
        CheckStep)
        ensures
            step == self.check_step(*summoner, state, reply),
    {
        match (state, reply) {
            (_, Reply::RiotFailed(e)) => Step::Done(Err(TrackerError::RiotApi(e))),
            (_, Reply::RepositoryFailed(e)) => Step::Done(Err(TrackerError::Database(e))),
            (CheckState::ActiveGame, Reply::ActiveGame(current)) => self.ask_check(
                summoner,
                CheckState::TrackedGames { current },
            ),
            (CheckState::TrackedGames { current }, Reply::ActiveGames(games)) => {
                let recorded = if games.len() > 0 {
                    Some(games[0].game_id)
                } else {
                    None
                };
                match (current, recorded) {
                    (Some(info), None) => Step::Done(Ok(GameStateChange::GameStarted(info))),
                    (Some(info), Some(game_id)) => {
                        if info.game_id != game_id {
                            Step::Done(
                                Ok(GameStateChange::GameEnded { game_id, is_featured_mode: false }),
                            )
                        } else {
                            Step::Done(Ok(GameStateChange::NoChange))
                        }
                    },
                    (None, Some(game_id)) => Step::Done(
                        Ok(GameStateChange::GameEnded { game_id, is_featured_mode: false }),
                    ),
                    (None, None) => self.ask_check(summoner, CheckState::RecentMatchId),
                }
            },
            (CheckState::RecentMatchId, Reply::RecentMatchId(None)) => Step::Done(
                Ok(GameStateChange::NoChange),
            ),
            (CheckState::RecentMatchId, Reply::RecentMatchId(Some(match_id))) => self.ask_check(
                summoner,
                CheckState::MatchHistory { match_id },
            ),
            (CheckState::MatchHistory { match_id }, Reply::MatchHistory(stored)) => {
                if stored.is_some() {
                    Step::Done(Ok(GameStateChange::NoChange))
                } else {
                    match game_id_from_match_id(match_id.as_str()) {
                        Some(game_id) => Step::Done(
                            Ok(GameStateChange::GameEnded { game_id, is_featured_mode: true }),
                        ),
                        None => Step::Done(Ok(GameStateChange::NoChange)),
                    }
                }
            },
            (state, _) => self.ask_check(summoner, state),
        }
    }

    /// The request that the handling of a started game is waiting on.
    pub open spec fn started_request(self, summoner: Summoner, state: StartedState) -> Request {
        match state {
            StartedState::Insert { game_info } => Request::InsertActiveGame(
                active_game_record(summoner.id, game_info),
            ),
        }
    }

    /// One step of handling a started game: the record is stored, or a
    /// failure is the outcome. Any other reply has the request made again.
    pub open spec fn started_step(self, summoner: Summoner, state: StartedState, reply: Reply)
        -> StartedStep {
        match reply {
            Reply::Written => Step::Done(Ok(())),
            Reply::RepositoryFailed(e) => Step::Done(Err(TrackerError::Database(e))),
            Reply::RiotFailed(e) => Step::Done(Err(TrackerError::RiotApi(e))),
            _ => Step::Ask(state, self.started_request(summoner, state)),
        }
    }

    fn ask_started(&self, summoner: &Summoner, state: StartedState) -> (step: StartedStep)
        ensures
            step == Step::<StartedState, Result<(), TrackerError>>::Ask(
                state,
                self.started_request(*summoner, state),
            ),
    {
        let request = match &state {
            StartedState::Insert { game_info } => Request::InsertActiveGame(
                new_active_game(summoner.id, game_info),
            ),
        };
        Step::Ask(state, request)
    }

    /// Begins the handling of a started game: the store is asked to keep an
    /// active-game record of it.
    pub fn handle_game_started(&self, summoner: &Summoner, game_info: ActiveGameInfo) -> (step:
        StartedStep)
        ensures
            step == Step::<StartedState, Result<(), TrackerError>>::Ask(
                StartedState::Insert { game_info },
                Request::InsertActiveGame(active_game_record(summoner.id, game_info)),
            ),
    {
        self.ask_started(summoner, StartedState::Insert { game_info })
    }

    /// Goes on with the handling of a started game, on the store's reply.
    pub fn resume_started(&self, summoner: &Summoner, state: StartedState, reply: Reply) -> (step:
        StartedStep)
        ensures
            step == self.started_step(*summoner, state, reply),
    {
        match reply {
            Reply::Written => Step::Done(Ok(())),
            Reply::RepositoryFailed(e) => Step::Done(Err(TrackerError::Database(e))),
            Reply::RiotFailed(e) => Step::Done(Err(TrackerError::RiotApi(e))),
            _ => self.ask_started(summoner, state),
        }
    }

    /// Whether `request` is the one that the handling of an ended game is
    /// waiting on in `state`: the removal of the game's record; the fetch of
    /// its match, at once the first time and after a pause from then on; or
    /// the storing of the result.
    pub open spec fn ended_request_fits(self, summoner: Summoner, state: EndedState, request: Request)
        -> bool {
        match state {
            EndedState::Delete { game_id, max_retries } => request
                == (Request::DeleteActiveGameBySummonerAndGame { summoner_id: summoner.id, game_id }),
            EndedState::Fetch { game_id, attempt, max_retries } => {
                &&& request matches Request::GetMatchResult { match_id, puuid, region, delay_secs }
                &&& match_id@ == self.match_id_text(game_id)
                &&& puuid == summoner.riot_puuid
                &&& region == self.regional()
                &&& delay_secs == if attempt > 0 {
                    MATCH_FETCH_DELAY_SECS
                } else {
                    0
                }
            },
            EndedState::Store { result, finished_at } => request == Request::InsertMatchResult(
                match_record(summoner.id, result, finished_at),
            ),
        }
    }

    /// The request that the handling of an ended game is waiting on.
    pub fn ended_request(&self, summoner: &Summoner, state: &EndedState) -> (request: Request)
        ensures
            self.ended_request_fits(*summoner, *state, request),
    {
        match state {
            EndedState::Delete { game_id, max_retries } => {
                Request::DeleteActiveGameBySummonerAndGame {
                    summoner_id: summoner.id,
                    game_id: *game_id,
                }
            },
            EndedState::Fetch { game_id, attempt, max_retries } => Request::GetMatchResult {
                match_id: self.match_id(*game_id),
                puuid: summoner.riot_puuid.clone(),
                region: RiotClient::regional_for_region(self.default_region.as_str()),
                delay_secs: if *attempt > 0 {
                    MATCH_FETCH_DELAY_SECS
                } else {
                    0
                },
            },
            EndedState::Store { result, finished_at } => Request::InsertMatchResult(
                new_match_result(summoner.id, result, *finished_at),
            ),
        }
    }

    fn ask_ended(&self, summoner: &Summoner, state: EndedState) -> (step: EndedStep)
        ensures
            step.progress() == Progress::<
                EndedState,
                Result<Option<MatchResult>, TrackerError>,
            >::Waiting(state),
            step matches Step::Ask(s, r) && self.ended_request_fits(*summoner, s, r),
    {
        let request = self.ended_request(summoner, &state);
        Step::Ask(state, request)
    }

    fn fetch_attempt(&self, summoner: &Summoner, game_id: i64, attempt: u32, max_retries: u32)
        -> (step: EndedStep)
        ensures
            step.progress() == fetch_progress(game_id, attempt as int, max_retries),
            step matches Step::Ask(s, r) ==> self.ended_request_fits(*summoner, s, r),
    {
        if attempt < max_retries {
            self.ask_ended(summoner, EndedState::Fetch { game_id, attempt, max_retries })
        } else {
            Step::Done(Ok(None))
        }
    }

    /// Begins the fetch of a finished game's result, which the upstream API
    /// may take a while to have: it is asked for up to `max_retries` times.
    pub fn fetch_match_with_retry(&self, summoner: &Summoner, game_id: i64, max_retries: u32)
        -> (step: EndedStep)
        ensures
            step.progress() == fetch_progress(game_id, 0, max_retries),
            step matches Step::Ask(s, r) ==> self.ended_request_fits(*summoner, s, r),
    {
        self.fetch_attempt(summoner, game_id, 0, max_retries)
    }

    /// Begins the handling of an ended game: the store is asked to remove
    /// the player's active-game record of it. The result will then be asked
    /// for up to `MATCH_FETCH_ATTEMPTS` times.
    pub fn handle_game_ended(&self, summoner: &Summoner, game_id: i64) -> (step: EndedStep)
        ensures
            step == Step::<EndedState, Result<Option<MatchResult>, TrackerError>>::Ask(
                EndedState::Delete { game_id, max_retries: MATCH_FETCH_ATTEMPTS },
                Request::DeleteActiveGameBySummonerAndGame { summoner_id: summoner.id, game_id },
            ),
    {
        self.ask_ended(summoner, EndedState::Delete { game_id, max_retries: MATCH_FETCH_ATTEMPTS })
    }

    /// Goes on with the handling of an ended game, on the reply to its last
    /// request, received at the time `now`.
    pub fn resume_ended(
        &self,
        summoner: &Summoner,
        state: EndedState,
        reply: Reply,
        now: Timestamp,
    ) -> (step: EndedStep)
        ensures
            step.progress() == ended_next(state, reply, now),
            step matches Step::Ask(s, r) ==> self.ended_request_fits(*summoner, s, r),
    {
        match state {
            EndedState::Delete { game_id, max_retries } => match reply {
                Reply::Written => self.fetch_attempt(summoner, game_id, 0, max_retries),
                Reply::RepositoryFailed(e) => Step::Done(Err(TrackerError::Database(e))),
                Reply::RiotFailed(e) => Step::Done(Err(TrackerError::RiotApi(e))),
                _ => self.ask_ended(summoner, EndedState::Delete { game_id, max_retries }),
            },
            EndedState::Fetch { game_id, attempt, max_retries } => match reply {
                Reply::MatchResult(Some(result)) => self.ask_ended(
                    summoner,
                    EndedState::Store { result, finished_at: now },
                ),
                Reply::MatchResult(None) => {
                    if attempt < max_retries {
                        self.fetch_attempt(summoner, game_id, attempt + 1, max_retries)
                    } else {
                        Step::Done(Ok(None))
                    }
                },
                Reply::RepositoryFailed(e) => Step::Done(Err(TrackerError::Database(e))),
                Reply::RiotFailed(e) => Step::Done(Err(TrackerError::RiotApi(e))),
                _ => self.ask_ended(
                    summoner,
                    EndedState::Fetch { game_id, attempt, max_retries },
                ),
            },
            EndedState::Store { result, finished_at } => Step::Done(Ok(Some(result))),
        }
    }
}

/// The active-game record that tracks `game_info` for a player.
pub open spec fn active_game_record(summoner_id: u128, game_info: ActiveGameInfo)
    -> NewActiveGame {
    NewActiveGame {
        summoner_id,
        game_id: game_info.game_id,
        champion_id: game_info.champion_id,
        game_mode: game_info.game_mode,
        game_start_time: game_info.game_start_time,
    }
}

/// The active-game record that tracks `game_info` for a player.
pub fn new_active_game(summoner_id: u128, game_info: &ActiveGameInfo) -> (record: NewActiveGame)
    ensures
        record == active_game_record(summoner_id, *game_info),
{
    NewActiveGame {
        summoner_id,
        game_id: game_info.game_id,
        champion_id: game_info.champion_id,
        game_mode: game_info.game_mode.clone(),
        game_start_time: game_info.game_start_time,
    }
}

/// The record that keeps a player's result of a match, finished at
/// `finished_at`.
pub open spec fn match_record(summoner_id: u128, result: MatchResult, finished_at: Timestamp)
    -> NewMatchResult {
    NewMatchResult {
        summoner_id,
        match_id: result.match_id,
        game_id: result.game_id,
        win: result.win,
        kills: result.kills,
        deaths: result.deaths,
        assists: result.assists,
        champion_id: result.champion_id,
        game_duration_secs: result.game_duration_secs,
        game_mode: result.game_mode,
        role: result.role,
        finished_at,
        total_cs: result.total_cs,
        total_gold: result.total_gold,
        total_damage: result.total_damage,
        enemy_champion_name: result.enemy_champion_name,
        enemy_cs: result.enemy_cs,
        enemy_gold: result.enemy_gold,
        enemy_damage: result.enemy_damage,
    }
}

/// The record that keeps a player's result of a match, finished at
/// `finished_at`.
pub fn new_match_result(summoner_id: u128, result: &MatchResult, finished_at: Timestamp) -> (record:
    NewMatchResult)
    ensures
        record == match_record(summoner_id, *result, finished_at),
{
    NewMatchResult {
        summoner_id,
        match_id: result.match_id.clone(),
        game_id: result.game_id,
        win: result.win,
        kills: result.kills,
        deaths: result.deaths,
        assists: result.assists,
        champion_id: result.champion_id,
        game_duration_secs: result.game_duration_secs,
        game_mode: result.game_mode.clone(),
        role: result.role.clone(),
        finished_at,
        total_cs: result.total_cs,
        total_gold: result.total_gold,
        total_damage: result.total_damage,
        enemy_champion_name: clone_text(&result.enemy_champion_name),
        enemy_cs: result.enemy_cs,
        enemy_gold: result.enemy_gold,
        enemy_damage: result.enemy_damage,
    }
}

/// The game id that a match id names.
pub fn game_id_from_match_id(match_id: &str) -> (game_id: Option<i64>)
    ensures
        game_id == game_id_of(match_id@),
{
    let chars = chars_of(match_id);
    match find_first(&chars, '_') {
        Some(at) => {
            assert(at < chars.len());
            parse_i64_from(&chars, at + 1)
        },
        None => None,
    }
}

/// The change that one poll finds: what the upstream API and the player's
/// first record decide between them, or else what the match history shows.
pub open spec fn state_change(
    current: Option<ActiveGameInfo>,
    recorded: Option<i64>,
    recent: Option<String>,
    stored: bool,
) -> GameStateChange {
    match classify(current, recorded) {
        Some(change) => change,
        None => classify_history(recent, stored),
    }
}

impl GameTracker {
    /// Where a check stands once the replies have been handed to it one
    /// after the other. Replies that arrive after it has finished change
    /// nothing.
    pub open spec fn check_outcome(self, summoner: Summoner, step: CheckStep, replies: Seq<Reply>)
        -> CheckStep
        decreases replies.len(),
    {
        match step {
            Step::Done(_) => step,
            Step::Ask(state, _) => if replies.len() == 0 {
                step
            } else {
                self.check_outcome(
                    summoner,
                    self.check_step(summoner, state, replies[0]),
                    replies.drop_first(),
                )
            },
        }
    }

    /// A check that is answered truthfully finds the change that the four
    /// facts amount to: the game the upstream API reports, the player's
    /// active-game records, the most recent finished match, and whether that
    /// match is stored. It asks for the match history only where neither of
    /// the first two shows a game.
    pub proof fn lemma_check_finds_change(
        self,
        summoner: Summoner,
        current: Option<ActiveGameInfo>,
        games: Vec<ActiveGame>,
        recent: Option<String>,
        stored: Option<crate::db::models::MatchHistory>,
    )
        ensures
            self.check_outcome(
                summoner,
                Step::Ask(CheckState::ActiveGame, self.check_request(summoner, CheckState::ActiveGame)),
                seq![
                    Reply::ActiveGame(current),
                    Reply::ActiveGames(games),
                    Reply::RecentMatchId(recent),
                    Reply::MatchHistory(stored),
                ],
            ) == Step::<CheckState, Result<GameStateChange, TrackerError>>::Done(
                Ok(state_change(current, first_tracked(games@), recent, stored is Some)),
            ),
    {
        let r0 = Reply::ActiveGame(current);
        let r1 = Reply::ActiveGames(games);
        let r2 = Reply::RecentMatchId(recent);
        let r3 = Reply::MatchHistory(stored);
        let all = seq![r0, r1, r2, r3];
        let start: CheckStep = Step::Ask(
            CheckState::ActiveGame,
            self.check_request(summoner, CheckState::ActiveGame),
        );
        let s1 = self.check_step(summoner, CheckState::ActiveGame, r0);
        let t1 = all.drop_first();
        let t2 = t1.drop_first();
        let t3 = t2.drop_first();
        let t4 = t3.drop_first();
        assert(t1[0] == r1 && t2[0] == r2 && t3[0] == r3 && t4.len() == 0);
        assert(self.check_outcome(summoner, start, all) == self.check_outcome(summoner, s1, t1));
        let s2 = self.check_step(summoner, CheckState::TrackedGames { current }, r1);
        assert(self.check_outcome(summoner, s1, t1) == self.check_outcome(summoner, s2, t2));
        match classify(current, first_tracked(games@)) {
            Some(change) => {},
            None => {
                let s3 = self.check_step(summoner, CheckState::RecentMatchId, r2);
                assert(self.check_outcome(summoner, s2, t2) == self.check_outcome(summoner, s3, t3));
                match recent {
                    None => {},
                    Some(match_id) => {
                        let s4 = self.check_step(
                            summoner,
                            CheckState::MatchHistory { match_id },
                            r3,
                        );
                        assert(self.check_outcome(summoner, s3, t3) == self.check_outcome(
                            summoner,
                            s4,
                            t4,
                        ));
                    },
                }
            },
        }
    }
}

/// The steps that the handling of an ended game takes from `state` as the
/// answers arrive, each a reply and the time it came at, up to the step
/// that finishes it.
pub open spec fn ended_path(state: EndedState, answers: Seq<(Reply, Timestamp)>) -> Seq<
    EndedProgress,
>
    decreases answers.len(),
{
    if answers.len() == 0 {
        Seq::empty()
    } else {
        let next = ended_next(state, answers[0].0, answers[0].1);
        match next {
            Progress::Waiting(s) => seq![next] + ended_path(s, answers.drop_first()),
            Progress::Finished(_) => seq![next],
        }
    }
}

/// `count` answers that say the result is not there yet, arriving at
/// `times`.
pub open spec fn misses(count: nat, times: Seq<Timestamp>) -> Seq<(Reply, Timestamp)> {
    Seq::new(count, |i: int| (Reply::MatchResult(None), times[i]))
}

/// Where the result of a finished game is not there at first and arrives
/// while attempts are left, the handling stores it once and ends with it.
///
/// From the attempt numbered `attempt`, `missed` answers without a result
/// and then one with `result` lead through `missed` further attempts to the
/// one state that stores the result, and whatever the store answers, the
/// outcome is the result.
pub proof fn lemma_retry_finds_result(
    game_id: i64,
    attempt: u32,
    max_retries: u32,
    missed: nat,
    result: MatchResult,
    times: Seq<Timestamp>,
    stored: (Reply, Timestamp),
)
    requires
        attempt + missed < max_retries,
        times.len() == missed + 1,
    ensures
        ({
            let answers = misses(missed, times).push(
                (Reply::MatchResult(Some(result)), times[missed as int]),
            ).push(stored);
            let path = ended_path(EndedState::Fetch { game_id, attempt, max_retries }, answers);
            &&& path.len() == missed + 2
            &&& forall|i: int|
                0 <= i < missed ==> #[trigger] path[i] == fetch_progress(
                    game_id,
                    attempt + i + 1,
                    max_retries,
                )
            &&& path[missed as int] == Progress::<
                EndedState,
                Result<Option<MatchResult>, TrackerError>,
            >::Waiting(EndedState::Store { result, finished_at: times[missed as int] })
            &&& path[missed as int + 1] == Progress::<
                EndedState,
                Result<Option<MatchResult>, TrackerError>,
            >::Finished(Ok(Some(result)))
        }),
    decreases missed,
{
    let hit = (Reply::MatchResult(Some(result)), times[missed as int]);
    let answers = misses(missed, times).push(hit).push(stored);
    let state = EndedState::Fetch { game_id, attempt, max_retries };
    let path = ended_path(state, answers);
    if missed == 0 {
        let store = EndedState::Store { result, finished_at: times[0] };
        assert(answers[0] == hit);
        let rest = answers.drop_first();
        assert(rest[0] == stored);
        assert(rest.drop_first().len() == 0);
        assert(ended_path(store, rest) == seq![ended_next(store, stored.0, stored.1)]);
    } else {
        let next = EndedState::Fetch { game_id, attempt: (attempt + 1) as u32, max_retries };
        let later = times.drop_first();
        lemma_retry_finds_result(
            game_id,
            (attempt + 1) as u32,
            max_retries,
            (missed - 1) as nat,
            result,
            later,
            stored,
        );
        let tail = misses((missed - 1) as nat, later).push(
            (Reply::MatchResult(Some(result)), later[missed - 1]),
        ).push(stored);
        assert(answers.drop_first() == tail);
        assert(answers[0] == (Reply::MatchResult(None), times[0]));
        let shorter = ended_path(next, tail);
        assert(path == seq![fetch_progress(game_id, attempt + 1, max_retries)] + shorter);
        assert forall|i: int| 0 <= i < missed implies #[trigger] path[i] == fetch_progress(
            game_id,
            attempt + i + 1,
            max_retries,
        ) by {
            if i > 0 {
                assert(path[i] == shorter[i - 1]);
            }
        }
        assert(path[missed as int] == shorter[missed - 1]);
        assert(path[missed as int + 1] == shorter[missed as int]);
    }
}

/// Where the result of a finished game is never there, the handling ends
/// without one once the attempts are used up, and stores nothing.
///
/// From the attempt numbered `attempt`, an answer without a result to every
/// attempt that is left leads through those attempts and to no other state,
/// and the outcome is that there is no result.
pub proof fn lemma_retry_gives_up(
    game_id: i64,
    attempt: u32,
    max_retries: u32,
    times: Seq<Timestamp>,
)
    requires
        attempt < max_retries,
        times.len() == max_retries - attempt,
    ensures
        ({
            let left = (max_retries - attempt) as nat;
            let path = ended_path(
                EndedState::Fetch { game_id, attempt, max_retries },
                misses(left, times),
            );
            &&& path.len() == left
            &&& forall|i: int|
                0 <= i < left - 1 ==> #[trigger] path[i] == Progress::<
                    EndedState,
                    Result<Option<MatchResult>, TrackerError>,
                >::Waiting(
                    EndedState::Fetch { game_id, attempt: (attempt + i + 1) as u32, max_retries },
                )
            &&& path[left - 1] == Progress::<
                EndedState,
                Result<Option<MatchResult>, TrackerError>,
            >::Finished(Ok(None))
        }),
    decreases max_retries - attempt,
{
    let left = (max_retries - attempt) as nat;
    let answers = misses(left, times);
    let state = EndedState::Fetch { game_id, attempt, max_retries };
    let path = ended_path(state, answers);
    assert(answers[0] == (Reply::MatchResult(None), times[0]));
    if left > 1 {
        let next = EndedState::Fetch { game_id, attempt: (attempt + 1) as u32, max_retries };
        let later = times.drop_first();
        lemma_retry_gives_up(game_id, (attempt + 1) as u32, max_retries, later);
        let tail = misses((left - 1) as nat, later);
        assert(answers.drop_first() == tail);
        let shorter = ended_path(next, tail);
        assert(path == seq![
            Progress::<EndedState, Result<Option<MatchResult>, TrackerError>>::Waiting(next),
        ] + shorter);
        assert forall|i: int| 0 <= i < left - 1 implies #[trigger] path[i] == Progress::<
            EndedState,
            Result<Option<MatchResult>, TrackerError>,
        >::Waiting(
            EndedState::Fetch { game_id, attempt: (attempt + i + 1) as u32, max_retries },
        ) by {
            if i > 0 {
                assert(path[i] == shorter[i - 1]);
            }
        }
        assert(path[left - 1] == shorter[left - 2]);
    }
}

/// A result that has arrived is the outcome whatever the store answers to
/// storing it: that the store has the result already, or that it failed,
/// does not fail the handling.
pub proof fn lemma_result_is_the_outcome(
    result: MatchResult,
    finished_at: Timestamp,
    reply: Reply,
    now: Timestamp,
)
    ensures
        ended_next(EndedState::Store { result, finished_at }, reply, now) == Progress::<
            EndedState,
            Result<Option<MatchResult>, TrackerError>,
        >::Finished(Ok(Some(result))),
{
}

/// What a poll of a player meets: the game the upstream API reports, the
/// most recent finished match, whether that match is stored, and whether the
/// store carries out the write that the poll asks for.
pub struct Observation {
    pub current: Option<ActiveGameInfo>,
    pub recent: Option<String>,
    pub stored: bool,
    pub written: bool,
}

/// The games of a player's active-game records after a poll that found
/// `change`: a started game is added, the records of an ended game are
/// removed.
pub open spec fn records_after(records: Seq<i64>, change: GameStateChange) -> Seq<i64> {
    match change {
        GameStateChange::GameStarted(info) => records.push(info.game_id),
        GameStateChange::GameEnded { game_id, is_featured_mode } => records.filter(
            |g: i64| g != game_id,
        ),
        GameStateChange::NoChange => records,
    }
}

/// The game of the first of a player's records, if there is a record.
pub open spec fn first_record(records: Seq<i64>) -> Option<i64> {
    if records.len() > 0 {
        Some(records[0])
    } else {
        None
    }
}

/// The games of a player's active-game records after one poll.
pub open spec fn records_after_poll(records: Seq<i64>, seen: Observation) -> Seq<i64> {
    if seen.written {
        records_after(
            records,
            state_change(seen.current, first_record(records), seen.recent, seen.stored),
        )
    } else {
        records
    }
}

/// The games of a player's active-game records after a series of polls.
pub open spec fn records_after_polls(records: Seq<i64>, polls: Seq<Observation>) -> Seq<i64>
    decreases polls.len(),
{
    if polls.len() == 0 {
        records
    } else {
        records_after_poll(records_after_polls(records, polls.drop_last()), polls.last())
    }
}

/// A poll never leaves a player with more records than before, unless there
/// was none: then it leaves one at most.
pub proof fn lemma_poll_keeps_one_record(records: Seq<i64>, seen: Observation)
    ensures
        records_after_poll(records, seen).len() <= if records.len() == 0 {
            1
        } else {
            records.len()
        },
{
    let change = state_change(seen.current, first_record(records), seen.recent, seen.stored);
    match change {
        GameStateChange::GameEnded { game_id, is_featured_mode } => {
            records.lemma_filter_len(|g: i64| g != game_id);
        },
        _ => {},
    }
}

/// A player who has one active-game record at most has one at most after
/// every poll, whatever the polls meet.
pub proof fn lemma_one_record_at_most(records: Seq<i64>, polls: Seq<Observation>)
    requires
        records.len() <= 1,
    ensures
        forall|k: int|
            0 <= k <= polls.len() ==> (#[trigger] records_after_polls(records, polls.take(k))).len()
                <= 1,
    decreases polls.len(),
{
    assert forall|k: int| 0 <= k <= polls.len() implies (#[trigger] records_after_polls(
        records,
        polls.take(k),
    )).len() <= 1 by {
        if k == polls.len() {
            assert(polls.take(k) == polls);
            if polls.len() > 0 {
                lemma_one_record_at_most(records, polls.drop_last());
                assert(polls.drop_last().take(k - 1) == polls.drop_last());
                lemma_poll_keeps_one_record(
                    records_after_polls(records, polls.drop_last()),
                    polls.last(),
                );
            }
        } else {
            lemma_one_record_at_most(records, polls.drop_last());
            assert(polls.drop_last().take(k) == polls.take(k));
        }
    }
}

/// The games of a player's records in the table of active games, in the
/// table's order.
pub open spec fn games_of(active_games: Seq<ActiveGame>, summoner_id: u128) -> Seq<i64> {
    active_games.filter(|g: ActiveGame| g.summoner_id == summoner_id).map_values(
        |g: ActiveGame| g.game_id,
    )
}

/// A record added to the table is added to its player's games, and to no
/// other player's.
pub proof fn lemma_games_with_record(active_games: Seq<ActiveGame>, record: ActiveGame, summoner_id: u128)
    ensures
        games_of(active_games.push(record), summoner_id) == if record.summoner_id == summoner_id {
            games_of(active_games, summoner_id).push(record.game_id)
        } else {
            games_of(active_games, summoner_id)
        },
{
    reveal(Seq::filter);
    let of_player = |g: ActiveGame| g.summoner_id == summoner_id;
    let longer = active_games.push(record);
    assert(longer.drop_last() == active_games);
    assert(longer.last() == record);
    if record.summoner_id == summoner_id {
        assert(longer.filter(of_player) == active_games.filter(of_player).push(record));
        assert(games_of(longer, summoner_id) == games_of(active_games, summoner_id).push(
            record.game_id,
        ));
    } else {
        assert(longer.filter(of_player) == active_games.filter(of_player));
    }
}

/// Removing a player's records of a game removes the game from that
/// player's games, and nothing from any other player's.
pub proof fn lemma_games_without_game(
    active_games: Seq<ActiveGame>,
    player: u128,
    game_id: i64,
    summoner_id: u128,
)
    ensures
        games_of(
            active_games.filter(|g: ActiveGame| !(g.summoner_id == player && g.game_id == game_id)),
            summoner_id,
        ) == if player == summoner_id {
            games_of(active_games, summoner_id).filter(|g: i64| g != game_id)
        } else {
            games_of(active_games, summoner_id)
        },
    decreases active_games.len(),
{
    reveal(Seq::filter);
    let kept = |g: ActiveGame| !(g.summoner_id == player && g.game_id == game_id);
    let other = |g: i64| g != game_id;
    if active_games.len() == 0 {
        assert(games_of(active_games, summoner_id) == Seq::<i64>::empty());
        assert(active_games.filter(kept) == active_games);
    } else {
        let before = active_games.drop_last();
        let last = active_games.last();
        lemma_games_without_game(before, player, game_id, summoner_id);
        assert(active_games == before.push(last));
        lemma_games_with_record(before, last, summoner_id);
        if kept(last) {
            assert(active_games.filter(kept) == before.filter(kept).push(last));
            lemma_games_with_record(before.filter(kept), last, summoner_id);
            if last.summoner_id == summoner_id && player == summoner_id {
                let games = games_of(before, summoner_id);
                assert(games.push(last.game_id).drop_last() == games);
                assert(games.push(last.game_id).filter(other) == games.filter(other).push(
                    last.game_id,
                ));
            }
        } else {
            assert(active_games.filter(kept) == before.filter(kept));
            let games = games_of(before, summoner_id);
            assert(games.push(last.game_id).drop_last() == games);
            assert(games.push(last.game_id).filter(other) == games.filter(other));
        }
    }
}

/// What a poll writes to the table of active games is what the change it
/// found asks for, for the player polled and for no other: the record of a
/// started game is added, the records of an ended game are removed.
pub proof fn lemma_poll_writes_for_its_player(
    active_games: Seq<ActiveGame>,
    player: u128,
    change: GameStateChange,
    record: ActiveGame,
    summoner_id: u128,
)
    requires
        change matches GameStateChange::GameStarted(info) ==> record.summoner_id == player
            && record.game_id == info.game_id,
    ensures
        ({
            let table = match change {
                GameStateChange::GameStarted(info) => active_games.push(record),
                GameStateChange::GameEnded { game_id, is_featured_mode } => active_games.filter(
                    |g: ActiveGame| !(g.summoner_id == player && g.game_id == game_id),
                ),
                GameStateChange::NoChange => active_games,
            };
            games_of(table, summoner_id) == if summoner_id == player {
                records_after(games_of(active_games, player), change)
            } else {
                games_of(active_games, summoner_id)
            }
        }),
{
    match change {
        GameStateChange::GameStarted(info) => {
            lemma_games_with_record(active_games, record, summoner_id);
        },
        GameStateChange::GameEnded { game_id, is_featured_mode } => {
            lemma_games_without_game(active_games, player, game_id, summoner_id);
        },
        GameStateChange::NoChange => {},
    }
}

} // verus!
