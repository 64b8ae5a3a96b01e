//! One poll of one player, from the check of the game state to the
//! notification that is queued for it.

use crate::db::models::{Champion, NewNotificationEvent, Summoner, Timestamp};
use crate::exchange::{Progress, Reply, Request, Step};
use crate::riot::models::{ActiveGameInfo, GameStateChange, MatchResult};
use crate::riot::tracker::{
    active_game_record, ended_next, new_active_game, CheckState, EndedState, GameTracker,
    TrackerError, MATCH_FETCH_ATTEMPTS,
};
use crate::text::{clone_text, decimal, push_decimal};
use vstd::prelude::*;

verus! {

/// The name a champion is shown under: its stored name, or its number where
/// the store has none.
pub open spec fn champion_label(champion: Option<Champion>, champion_id: i32) -> Seq<char> {
    match champion {
        Some(c) => c.champion_name@,
        None => "Champion #"@ + decimal(champion_id as int),
    }
}

/// The name a champion is shown under.
pub fn champion_name_or_number(champion: &Option<Champion>, champion_id: i32) -> (name: String)
    ensures
        name@ == champion_label(*champion, champion_id),
{
    match champion {
        Some(c) => c.champion_name.clone(),
        None => {
            let mut name = String::from_str("Champion #");
            push_decimal(&mut name, champion_id as i64);
            name
        },
    }
}

/// What a notification is made from, once the champion has been looked up.
#[derive(Debug)]
pub enum EventDraft {
    /// The player started this game.
    Started { game_info: ActiveGameInfo, champion: Option<Champion> },
    /// The player's game ended with this result.
    Ended { result: MatchResult, champion: Option<Champion> },
}

/// Whether `event` is the notification that `draft` makes for a player: of
/// the kind `GAME_STARTED` or `GAME_ENDED`, with the champion under its
/// label, and with what the draft knows of the game. A started game has no
/// match, outcome or figures; an ended game has them all.
pub open spec fn event_fits(event: NewNotificationEvent, summoner_id: u128, draft: EventDraft)
    -> bool {
    match draft {
        EventDraft::Started { game_info, champion } => {
            &&& event.event_type@ == "GAME_STARTED"@
            &&& event.champion_name@ == champion_label(champion, game_info.champion_id)
            &&& event == NewNotificationEvent {
                summoner_id,
                event_type: event.event_type,
                game_id: game_info.game_id,
                match_id: None,
                champion_id: game_info.champion_id,
                champion_name: event.champion_name,
                role: None,
                win: None,
                kills: None,
                deaths: None,
                assists: None,
                game_duration_secs: None,
                game_mode: game_info.game_mode,
                is_featured_mode: false,
                total_cs: None,
                total_gold: None,
                total_damage: None,
                enemy_champion_name: None,
                enemy_cs: None,
                enemy_gold: None,
                enemy_damage: None,
            }
        },
        EventDraft::Ended { result, champion } => {
            &&& event.event_type@ == "GAME_ENDED"@
            &&& event.champion_name@ == champion_label(champion, result.champion_id)
            &&& event == NewNotificationEvent {
                summoner_id,
                event_type: event.event_type,
                game_id: result.game_id,
                match_id: Some(result.match_id),
                champion_id: result.champion_id,
                champion_name: event.champion_name,
                role: Some(result.role),
                win: Some(result.win),
                kills: Some(result.kills),
                deaths: Some(result.deaths),
                assists: Some(result.assists),
                game_duration_secs: Some(result.game_duration_secs),
                game_mode: result.game_mode,
                is_featured_mode: false,
                total_cs: Some(result.total_cs),
                total_gold: Some(result.total_gold),
                total_damage: Some(result.total_damage),
                enemy_champion_name: result.enemy_champion_name,
                enemy_cs: result.enemy_cs,
                enemy_gold: result.enemy_gold,
                enemy_damage: result.enemy_damage,
            }
        },
    }
}

/// The notification that `draft` makes for a player.
pub fn notification_event(summoner_id: u128, draft: &EventDraft) -> (event: NewNotificationEvent)
    ensures
        event_fits(event, summoner_id, *draft),
{
    match draft {
        EventDraft::Started { game_info, champion } => NewNotificationEvent {
            summoner_id,
            event_type: String::from_str("GAME_STARTED"),
            game_id: game_info.game_id,
            match_id: None,
            champion_id: game_info.champion_id,
            champion_name: champion_name_or_number(champion, game_info.champion_id),
            role: None,
            win: None,
            kills: None,
            deaths: None,
            assists: None,
            game_duration_secs: None,
            game_mode: game_info.game_mode.clone(),
            is_featured_mode: false,
            total_cs: None,
            total_gold: None,
            total_damage: None,
            enemy_champion_name: None,
            enemy_cs: None,
            enemy_gold: None,
            enemy_damage: None,
        },
        EventDraft::Ended { result, champion } => NewNotificationEvent {
            summoner_id,
            event_type: String::from_str("GAME_ENDED"),
            game_id: result.game_id,
            match_id: Some(result.match_id.clone()),
            champion_id: result.champion_id,
            champion_name: champion_name_or_number(champion, result.champion_id),
            role: Some(result.role.clone()),
            win: Some(result.win),
            kills: Some(result.kills),
            deaths: Some(result.deaths),
            assists: Some(result.assists),
            game_duration_secs: Some(result.game_duration_secs),
            game_mode: result.game_mode.clone(),
            is_featured_mode: false,
            total_cs: Some(result.total_cs),
            total_gold: Some(result.total_gold),
            total_damage: Some(result.total_damage),
            enemy_champion_name: clone_text(&result.enemy_champion_name),
            enemy_cs: result.enemy_cs,
            enemy_gold: result.enemy_gold,
            enemy_damage: result.enemy_damage,
        },
    }
}

/// What a poll is waiting for.
#[derive(Debug)]
pub enum PollState {
    /// The check of the player's game state.
    Checking(CheckState),
    /// The active-game record of a started game being stored.
    Starting { game_info: ActiveGameInfo },
    /// The champion played in the started game.
    StartedChampion { game_info: ActiveGameInfo },
    /// The handling of an ended game.
    Ending(EndedState),
    /// The champion played in the ended game.
    EndedChampion { result: MatchResult },
    /// The notification being queued.
    Enqueue(EventDraft),
}

/// How a poll ended, where nothing failed that ends it.
#[derive(Debug)]
pub enum PollOutcome {
    /// Nothing changed.
    NoChange,
    /// A game started; it is tracked now and its notification is queued.
    Started,
    /// A game ended; its result is stored and its notification is queued.
    Ended,
    /// A game ended, but its result never arrived: nothing is stored and
    /// nothing is queued.
    NoResult,
    /// A game ended, and handling the end failed: nothing is queued.
    EndFailed(TrackerError),
}

/// The outcome of a poll.
pub type PollStep = Step<PollState, Result<PollOutcome, TrackerError>>;

/// The outcome of a poll, without the request.
pub type PollProgress = Progress<PollState, Result<PollOutcome, TrackerError>>;

/// Where a poll goes on a reply that carries a champion: on to `found` with
/// the champion, out with a failure, or nowhere on any other reply.
pub open spec fn champion_next(state: PollState, reply: Reply, found: spec_fn(Option<Champion>) -> EventDraft)
    -> PollProgress {
    match reply {
        Reply::Champion(champion) => Progress::Waiting(PollState::Enqueue(found(champion))),
        Reply::RepositoryFailed(e) => Progress::Finished(Err(TrackerError::Database(e))),
        Reply::RiotFailed(e) => Progress::Finished(Err(TrackerError::RiotApi(e))),
        _ => Progress::Waiting(state),
    }
}

/// One step of a poll: where it goes from `state` on `reply`, received at
/// the time `now`.
///
/// The check comes first. A started game is recorded, its champion looked
/// up, and its notification queued; a failure on the way ends the poll with
/// the failure. An ended game is handled, and only a result that arrived has
/// its champion looked up and its notification queued; a failure of the
/// handling ends the poll without one. Nothing changed ends the poll at
/// once. A reply that answers another question leaves the poll where it is.
pub open spec fn poll_next(
    tracker: GameTracker,
    summoner: Summoner,
    state: PollState,
    reply: Reply,
    now: Timestamp,
) -> PollProgress {
    match state {
        PollState::Checking(check) => match tracker.check_step(summoner, check, reply) {
            Step::Ask(next, _) => Progress::Waiting(PollState::Checking(next)),
            Step::Done(Err(e)) => Progress::Finished(Err(e)),
            Step::Done(Ok(GameStateChange::GameStarted(game_info))) => Progress::Waiting(
                PollState::Starting { game_info },
            ),
            Step::Done(Ok(GameStateChange::GameEnded { game_id, is_featured_mode })) => {
                Progress::Waiting(
                    PollState::Ending(
                        EndedState::Delete { game_id, max_retries: MATCH_FETCH_ATTEMPTS },
                    ),
                )
            },
            Step::Done(Ok(GameStateChange::NoChange)) => Progress::Finished(
                Ok(PollOutcome::NoChange),
            ),
        },
        PollState::Starting { game_info } => match reply {
            Reply::Written => Progress::Waiting(PollState::StartedChampion { game_info }),
            Reply::RepositoryFailed(e) => Progress::Finished(Err(TrackerError::Database(e))),
            Reply::RiotFailed(e) => Progress::Finished(Err(TrackerError::RiotApi(e))),
            _ => Progress::Waiting(state),
        },
        PollState::StartedChampion { game_info } => champion_next(
            state,
            reply,
            |champion: Option<Champion>| EventDraft::Started { game_info, champion },
        ),
        PollState::Ending(ended) => match ended_next(ended, reply, now) {
            Progress::Waiting(next) => Progress::Waiting(PollState::Ending(next)),
            Progress::Finished(Ok(Some(result))) => Progress::Waiting(
                PollState::EndedChampion { result },
            ),
            Progress::Finished(Ok(None)) => Progress::Finished(Ok(PollOutcome::NoResult)),
            Progress::Finished(Err(e)) => Progress::Finished(Ok(PollOutcome::EndFailed(e))),
        },
        PollState::EndedChampion { result } => champion_next(
            state,
            reply,
            |champion: Option<Champion>| EventDraft::Ended { result, champion },
        ),
        PollState::Enqueue(draft) => match reply {
            Reply::Written => Progress::Finished(
                Ok(
                    match draft {
                        EventDraft::Started { .. } => PollOutcome::Started,
                        EventDraft::Ended { .. } => PollOutcome::Ended,
                    },
                ),
            ),
            Reply::RepositoryFailed(e) => Progress::Finished(Err(TrackerError::Database(e))),
            Reply::RiotFailed(e) => Progress::Finished(Err(TrackerError::RiotApi(e))),
            _ => Progress::Waiting(state),
        },
    }
}

/// Whether `request` is the one that a poll is waiting on in `state`.
pub open spec fn poll_request_fits(
    tracker: GameTracker,
    summoner: Summoner,
    state: PollState,
    request: Request,
) -> bool {
    match state {
        PollState::Checking(check) => request == tracker.check_request(summoner, check),
        PollState::Starting { game_info } => request == Request::InsertActiveGame(
            active_game_record(summoner.id, game_info),
        ),
        PollState::StartedChampion { game_info } => request == (Request::GetChampionById {
            champion_id: game_info.champion_id,
        }),
        PollState::Ending(ended) => tracker.ended_request_fits(summoner, ended, request),
        PollState::EndedChampion { result } => request == (Request::GetChampionById {
            champion_id: result.champion_id,
        }),
        PollState::Enqueue(draft) => {
            &&& request matches Request::InsertNotificationEvent(event)
            &&& event_fits(event, summoner.id, draft)
        },
    }
}

/// The request that a poll is waiting on in `state`.
pub fn poll_request(tracker: &GameTracker, summoner: &Summoner, state: &PollState) -> (request:
    Request)
    ensures
        poll_request_fits(*tracker, *summoner, *state, request),
{
    match state {
        PollState::Checking(check) => tracker.pending_check_request(summoner, check),
        PollState::Starting { game_info } => Request::InsertActiveGame(
            new_active_game(summoner.id, game_info),
        ),
        PollState::StartedChampion { game_info } => Request::GetChampionById {
            champion_id: game_info.champion_id,
        },
        PollState::Ending(ended) => tracker.ended_request(summoner, ended),
        PollState::EndedChampion { result } => Request::GetChampionById {
            champion_id: result.champion_id,
        },
        PollState::Enqueue(draft) => Request::InsertNotificationEvent(
            notification_event(summoner.id, draft),
        ),
    }
}

fn ask_poll(tracker: &GameTracker, summoner: &Summoner, state: PollState) -> (step: PollStep)
    ensures
        step.progress() == Progress::<PollState, Result<PollOutcome, TrackerError>>::Waiting(state),
        step matches Step::Ask(s, r) && poll_request_fits(*tracker, *summoner, s, r),
{
    let request = poll_request(tracker, summoner, &state);
    Step::Ask(state, request)
}

/// Begins a poll of one player: the check of the player's game state is
/// begun.
pub fn check_and_notify(tracker: &GameTracker, summoner: &Summoner) -> (step: PollStep)
    ensures
        step == Step::<PollState, Result<PollOutcome, TrackerError>>::Ask(
            PollState::Checking(CheckState::ActiveGame),
            tracker.check_request(*summoner, CheckState::ActiveGame),
        ),
{
    ask_poll(tracker, summoner, PollState::Checking(CheckState::ActiveGame))
}

/// Goes on with a poll of one player, on the reply to its last request,
/// received at the time `now`.
pub fn resume_poll(
    tracker: &GameTracker,
    summoner: &Summoner,
    state: PollState,
    reply: Reply,
    now: Timestamp,
) -> (step: PollStep)
    ensures
        step.progress() == poll_next(*tracker, *summoner, state, reply, now),
        step matches Step::Ask(s, r) ==> poll_request_fits(*tracker, *summoner, s, r),
{
    match state {
        PollState::Checking(check) => match tracker.resume_check(summoner, check, reply) {
            Step::Ask(next, request) => Step::Ask(PollState::Checking(next), request),
            Step::Done(Err(e)) => Step::Done(Err(e)),
            Step::Done(Ok(GameStateChange::GameStarted(game_info))) => ask_poll(
                tracker,
                summoner,
                PollState::Starting { game_info },
            ),
            Step::Done(Ok(GameStateChange::GameEnded { game_id, is_featured_mode })) => ask_poll(
                tracker,
                summoner,
                PollState::Ending(EndedState::Delete { game_id, max_retries: MATCH_FETCH_ATTEMPTS }),
            ),
            Step::Done(Ok(GameStateChange::NoChange)) => Step::Done(Ok(PollOutcome::NoChange)),
        },
        PollState::Starting { game_info } => match reply {
            Reply::Written => ask_poll(tracker, summoner, PollState::StartedChampion { game_info }),
            Reply::RepositoryFailed(e) => Step::Done(Err(TrackerError::Database(e))),
            Reply::RiotFailed(e) => Step::Done(Err(TrackerError::RiotApi(e))),
            _ => ask_poll(tracker, summoner, PollState::Starting { game_info }),
        },
        PollState::StartedChampion { game_info } => match reply {
            Reply::Champion(champion) => ask_poll(
                tracker,
                summoner,
                PollState::Enqueue(EventDraft::Started { game_info, champion }),
            ),
            Reply::RepositoryFailed(e) => Step::Done(Err(TrackerError::Database(e))),
            Reply::RiotFailed(e) => Step::Done(Err(TrackerError::RiotApi(e))),
            _ => ask_poll(tracker, summoner, PollState::StartedChampion { game_info }),
        },
        PollState::Ending(ended) => match tracker.resume_ended(summoner, ended, reply, now) {
            Step::Ask(next, request) => Step::Ask(PollState::Ending(next), request),
            Step::Done(Ok(Some(result))) => ask_poll(
                tracker,
                summoner,
                PollState::EndedChampion { result },
            ),
            Step::Done(Ok(None)) => Step::Done(Ok(PollOutcome::NoResult)),
            Step::Done(Err(e)) => Step::Done(Ok(PollOutcome::EndFailed(e))),
        },
        PollState::EndedChampion { result } => match reply {
            Reply::Champion(champion) => ask_poll(
                tracker,
                summoner,
                PollState::Enqueue(EventDraft::Ended { result, champion }),
            ),
            Reply::RepositoryFailed(e) => Step::Done(Err(TrackerError::Database(e))),
            Reply::RiotFailed(e) => Step::Done(Err(TrackerError::RiotApi(e))),
            _ => ask_poll(tracker, summoner, PollState::EndedChampion { result }),
        },
        PollState::Enqueue(draft) => match reply {
            Reply::Written => Step::Done(
                Ok(
                    match draft {
                        EventDraft::Started { .. } => PollOutcome::Started,
                        EventDraft::Ended { .. } => PollOutcome::Ended,
                    },
                ),
            ),
            Reply::RepositoryFailed(e) => Step::Done(Err(TrackerError::Database(e))),
            Reply::RiotFailed(e) => Step::Done(Err(TrackerError::RiotApi(e))),
            _ => ask_poll(tracker, summoner, PollState::Enqueue(draft)),
        },
    }
}

/// Goes on with a poll of one player at the current time.
pub fn resume_poll_now(tracker: &GameTracker, summoner: &Summoner, state: PollState, reply: Reply)
    -> (step: PollStep)
    ensures
        exists|now: Timestamp|
            step.progress() == #[trigger] poll_next(*tracker, *summoner, state, reply, now),
        step matches Step::Ask(s, r) ==> poll_request_fits(*tracker, *summoner, s, r),
{
    let now = Timestamp::now();
    resume_poll(tracker, summoner, state, reply, now)
}

/// Whether a message in the chat is to be answered: it is not the bot's own,
/// and it mentions the bot.
pub fn should_answer(author_id: u64, mentions: &Vec<u64>, bot_id: u64) -> (yes: bool)
    ensures
        yes == (author_id != bot_id && mentions@.contains(bot_id)),
{
    if author_id == bot_id {
        return false;
    }
    let mut i: usize = 0;
    while i < mentions.len()
        invariant
            i <= mentions@.len(),
            author_id != bot_id,
            forall|j: int| 0 <= j < i ==> mentions@[j] != bot_id,
        decreases mentions@.len() - i,
    {
        if mentions[i] == bot_id {
            return true;
        }
        i = i + 1;
    }
    false
}

} // verus!
