//! The store: its error, and a store that keeps its tables in memory.

use crate::db::models::{
    ActiveGame, Champion, MatchHistory, NewActiveGame, NewMatchResult, NewNotificationEvent,
    NotificationEvent, Summoner, Timestamp,
};
use crate::exchange::{Reply, Request};
use crate::text::{clone_text, text_eq};
use vstd::prelude::*;

verus! {

/// Why a call to the store failed.
#[derive(Debug)]
pub enum RepositoryError {
    /// The database reported an error; its text is carried along.
    Database(String),
}

impl RepositoryError {
    /// The message of the error, as a sequence of characters.
    pub open spec fn message_text(self) -> Seq<char> {
        match self {
            RepositoryError::Database(cause) => "Database error: "@ + cause@,
        }
    }

    /// The message of the error.
    pub fn message(&self) -> (text: String)
        ensures
            text@ == self.message_text(),
    {
        match self {
            RepositoryError::Database(cause) => {
                let mut text = String::from_str("Database error: ");
                text.append(cause.as_str());
                text
            },
        }
    }
}

/// A store that keeps its tables in memory, each in the order in which its
/// records came. It answers as the store of the service is to answer, and
/// stands in for it where there is no database.
#[derive(Debug)]
pub struct MemoryRepository {
    pub summoners: Vec<Summoner>,
    pub active_games: Vec<ActiveGame>,
    pub match_history: Vec<MatchHistory>,
    pub champions: Vec<Champion>,
    pub events: Vec<NotificationEvent>,
    /// The id that the next record gets.
    pub next_id: u128,
}

/// The record that the store keeps of an active game, under `id` and made at
/// `now`.
pub open spec fn stored_game(game: NewActiveGame, id: u128, now: Timestamp) -> ActiveGame {
    ActiveGame {
        id,
        summoner_id: game.summoner_id,
        game_id: game.game_id,
        champion_id: game.champion_id,
        game_mode: game.game_mode,
        game_start_time: game.game_start_time,
        created_at: now,
    }
}

/// The record that the store keeps of a match result, under `id` and made at
/// `now`.
pub open spec fn stored_result(result: NewMatchResult, id: u128, now: Timestamp) -> MatchHistory {
    MatchHistory {
        id,
        summoner_id: result.summoner_id,
        match_id: result.match_id,
        game_id: result.game_id,
        win: result.win,
        kills: result.kills,
        deaths: result.deaths,
        assists: result.assists,
        champion_id: result.champion_id,
        game_duration_secs: result.game_duration_secs,
        game_mode: result.game_mode,
        role: Some(result.role),
        finished_at: result.finished_at,
        created_at: now,
        total_cs: result.total_cs,
        total_gold: result.total_gold,
        total_damage: result.total_damage,
        enemy_champion_name: result.enemy_champion_name,
        enemy_cs: result.enemy_cs,
        enemy_gold: result.enemy_gold,
        enemy_damage: result.enemy_damage,
    }
}

/// The notification as it is queued, under `id` and at `now`: not processed
/// yet, and of no known queue.
pub open spec fn queued_event(event: NewNotificationEvent, id: u128, now: Timestamp)
    -> NotificationEvent {
    NotificationEvent {
        id,
        summoner_id: event.summoner_id,
        event_type: event.event_type,
        game_id: event.game_id,
        match_id: event.match_id,
        champion_id: event.champion_id,
        champion_name: event.champion_name,
        role: event.role,
        win: event.win,
        kills: event.kills,
        deaths: event.deaths,
        assists: event.assists,
        game_duration_secs: event.game_duration_secs,
        game_mode: event.game_mode,
        queue_id: None,
        is_featured_mode: event.is_featured_mode,
        total_cs: event.total_cs,
        total_gold: event.total_gold,
        total_damage: event.total_damage,
        enemy_champion_name: event.enemy_champion_name,
        enemy_cs: event.enemy_cs,
        enemy_gold: event.enemy_gold,
        enemy_damage: event.enemy_damage,
        processed: false,
        created_at: now,
        processed_at: None,
    }
}

/// The notification once it is marked as processed at `now`.
pub open spec fn marked(event: NotificationEvent, now: Timestamp) -> NotificationEvent {
    NotificationEvent { processed: true, processed_at: Some(now), ..event }
}

/// Whether the notifications stand oldest first.
pub open spec fn oldest_first(events: Seq<NotificationEvent>) -> bool {
    forall|i: int, j: int|
        0 <= i <= j < events.len() ==> (#[trigger] events[i]).created_at.total_nanos() <= (
        #[trigger] events[j]).created_at.total_nanos()
}

/// The place in the queue of a notification made at `now`: behind the last
/// one that was made at that time or before, which is the end of the queue
/// unless the clock has gone back.
pub open spec fn queue_place(events: Seq<NotificationEvent>, now: Timestamp) -> int
    decreases events.len(),
{
    if events.len() == 0 {
        0
    } else if events.last().created_at.total_nanos() <= now.total_nanos() {
        events.len() as int
    } else {
        queue_place(events.drop_last(), now)
    }
}

/// A notification queued at its place keeps the queue oldest first.
pub proof fn lemma_queue_stays_oldest_first(
    events: Seq<NotificationEvent>,
    event: NotificationEvent,
)
    requires
        oldest_first(events),
    ensures
        0 <= queue_place(events, event.created_at) <= events.len(),
        oldest_first(events.insert(queue_place(events, event.created_at), event)),
{
    let now = event.created_at;
    lemma_queue_place(events, now);
    let place = queue_place(events, now);
    let after = events.insert(place, event);
    assert forall|i: int, j: int| 0 <= i <= j < after.len() implies (
    #[trigger] after[i]).created_at.total_nanos() <= (#[trigger] after[j]).created_at.total_nanos() by {
        if i < place && j < place {
            assert(after[i] == events[i] && after[j] == events[j]);
        } else if i < place && j == place {
            assert(after[i] == events[i]);
            assert(events[i].created_at.total_nanos() <= events[place - 1].created_at.total_nanos());
        } else if i < place {
            assert(after[i] == events[i] && after[j] == events[j - 1]);
        } else if i == place && j == place {
        } else if i == place {
            assert(after[j] == events[j - 1]);
        } else {
            assert(after[i] == events[i - 1] && after[j] == events[j - 1]);
        }
    }
}

/// A choice among notifications that stand oldest first stands oldest first.
pub proof fn lemma_choice_stays_oldest_first(
    events: Seq<NotificationEvent>,
    chosen: spec_fn(NotificationEvent) -> bool,
)
    requires
        oldest_first(events),
    ensures
        oldest_first(events.filter(chosen)),
    decreases events.len(),
{
    reveal(Seq::filter);
    if events.len() > 0 {
        let before = events.drop_last();
        assert(oldest_first(before)) by {
            assert forall|i: int, j: int| 0 <= i <= j < before.len() implies (
            #[trigger] before[i]).created_at.total_nanos() <= (
            #[trigger] before[j]).created_at.total_nanos() by {
                assert(before[i] == events[i] && before[j] == events[j]);
            }
        }
        lemma_choice_stays_oldest_first(before, chosen);
        if chosen(events.last()) {
            let kept = before.filter(chosen);
            let all = events.filter(chosen);
            assert(all == kept.push(events.last()));
            assert forall|i: int, j: int| 0 <= i <= j < all.len() implies (
            #[trigger] all[i]).created_at.total_nanos() <= (
            #[trigger] all[j]).created_at.total_nanos() by {
                if j < kept.len() {
                    assert(all[i] == kept[i] && all[j] == kept[j]);
                } else if i < kept.len() {
                    assert(all[i] == kept[i]);
                    assert(kept.contains(kept[i]));
                    before.lemma_filter_contains_rev(chosen, kept[i]);
                    let k = choose|k: int| 0 <= k < before.len() && before[k] == kept[i];
                    assert(events[k] == before[k]);
                    assert(events[events.len() - 1] == events.last());
                }
            }
        }
    }
}

/// Where the place in the queue lies: the notification before it was made at
/// `now` or before, and all from it on were made later.
pub proof fn lemma_queue_place(events: Seq<NotificationEvent>, now: Timestamp)
    ensures
        0 <= queue_place(events, now) <= events.len(),
        queue_place(events, now) > 0 ==> events[queue_place(events, now) - 1].created_at.total_nanos()
            <= now.total_nanos(),
        forall|k: int|
            queue_place(events, now) <= k < events.len() ==> (
            #[trigger] events[k]).created_at.total_nanos() > now.total_nanos(),
    decreases events.len(),
{
    if events.len() > 0 && events.last().created_at.total_nanos() > now.total_nanos() {
        lemma_queue_place(events.drop_last(), now);
        let place = queue_place(events.drop_last(), now);
        assert forall|k: int| place <= k < events.len() implies (
        #[trigger] events[k]).created_at.total_nanos() > now.total_nanos() by {
            if k < events.len() - 1 {
                assert(events.drop_last()[k] == events[k]);
            }
        }
    }
}

/// Whether the record is the player's result of the match.
pub open spec fn is_result_of(record: MatchHistory, summoner_id: u128, match_id: Seq<char>)
    -> bool {
    record.summoner_id == summoner_id && record.match_id@ == match_id
}

/// Whether the player has a result of the match among the records.
pub open spec fn has_result(history: Seq<MatchHistory>, summoner_id: u128, match_id: Seq<char>)
    -> bool {
    exists|i: int| 0 <= i < history.len() && is_result_of(#[trigger] history[i], summoner_id, match_id)
}

/// The match results once `result` has been handed in for storing under
/// `id` at `now`: with it added, unless the player has a result of the match
/// already.
pub open spec fn results_with(
    history: Seq<MatchHistory>,
    result: NewMatchResult,
    id: u128,
    now: Timestamp,
) -> Seq<MatchHistory> {
    if has_result(history, result.summoner_id, result.match_id@) {
        history
    } else {
        history.push(stored_result(result, id, now))
    }
}

/// A result that is handed in twice is stored once: handing it in again,
/// under whatever id and at whatever time, changes nothing.
pub proof fn lemma_result_is_stored_once(
    history: Seq<MatchHistory>,
    result: NewMatchResult,
    id: u128,
    now: Timestamp,
    again_id: u128,
    again_at: Timestamp,
)
    ensures
        results_with(results_with(history, result, id, now), result, again_id, again_at)
            == results_with(history, result, id, now),
        results_unique(history) ==> results_unique(results_with(history, result, id, now)),
{
    let once = results_with(history, result, id, now);
    if !has_result(history, result.summoner_id, result.match_id@) {
        assert(is_result_of(once[once.len() - 1], result.summoner_id, result.match_id@));
        if results_unique(history) {
            assert forall|i: int, j: int| 0 <= i < j < once.len() implies !is_result_of(
                #[trigger] once[j],
                (#[trigger] once[i]).summoner_id,
                once[i].match_id@,
            ) by {
                if j < history.len() {
                    assert(once[i] == history[i] && once[j] == history[j]);
                } else {
                    assert(once[i] == history[i]);
                }
            }
        }
    }
}

/// Whether `at` is the place of the player's first result of the match.
pub open spec fn is_first_result_at(
    history: Seq<MatchHistory>,
    summoner_id: u128,
    match_id: Seq<char>,
    at: int,
) -> bool {
    &&& 0 <= at < history.len()
    &&& is_result_of(history[at], summoner_id, match_id)
    &&& forall|j: int| 0 <= j < at ==> !is_result_of(#[trigger] history[j], summoner_id, match_id)
}

/// Whether `at` is the place of the first record of the champion.
pub open spec fn is_first_champion_at(champions: Seq<Champion>, champion_id: i32, at: int) -> bool {
    &&& 0 <= at < champions.len()
    &&& champions[at].champion_id == champion_id
    &&& forall|j: int| 0 <= j < at ==> (#[trigger] champions[j]).champion_id != champion_id
}

/// Whether no player has two results of one match among the records.
pub open spec fn results_unique(history: Seq<MatchHistory>) -> bool {
    forall|i: int, j: int|
        0 <= i < j < history.len() ==> !is_result_of(
            #[trigger] history[j],
            (#[trigger] history[i]).summoner_id,
            history[i].match_id@,
        )
}

impl MemoryRepository {
    /// Whether the store is in order: no player has two results of one
    /// match, and the notifications stand oldest first. A new store is, and
    /// no operation puts one out of order.
    pub open spec fn well_formed(self) -> bool {
        results_unique(self.match_history@) && oldest_first(self.events@)
    }

    /// A store with nothing in it.
    pub fn new() -> (store: Self)
        ensures
            store.well_formed(),
            store.summoners@.len() == 0,
            store.active_games@.len() == 0,
            store.match_history@.len() == 0,
            store.champions@.len() == 0,
            store.events@.len() == 0,
            store.next_id == 1,
    {
        MemoryRepository {
            summoners: Vec::new(),
            active_games: Vec::new(),
            match_history: Vec::new(),
            champions: Vec::new(),
            events: Vec::new(),
            next_id: 1,
        }
    }

    /// The id for a new record, unless the ids have run out.
    fn take_id(&mut self) -> (id: Result<u128, RepositoryError>)
        ensures
            final(self).summoners == old(self).summoners,
            final(self).active_games == old(self).active_games,
            final(self).match_history == old(self).match_history,
            final(self).champions == old(self).champions,
            final(self).events == old(self).events,
            match id {
                Ok(taken) => taken == old(self).next_id && final(self).next_id == taken + 1,
                Err(_) => old(self).next_id == u128::MAX && final(self).next_id == u128::MAX,
            },
    {
        if self.next_id == u128::MAX {
            Err(RepositoryError::Database(String::from_str("out of record ids")))
        } else {
            let id = self.next_id;
            self.next_id = id + 1;
            Ok(id)
        }
    }

    /// Every tracked player.
    pub fn get_all_summoners(&self) -> (all: Vec<Summoner>)
        ensures
            all@ == self.summoners@,
    {
        let mut all: Vec<Summoner> = Vec::new();
        let mut i: usize = 0;
        while i < self.summoners.len()
            invariant
                i <= self.summoners@.len(),
                all@ == self.summoners@.take(i as int),
            decreases self.summoners@.len() - i,
        {
            all.push(self.summoners[i].clone());
            i = i + 1;
        }
        all
    }

    /// The active-game records of one player.
    pub fn get_active_games_for_summoner(&self, summoner_id: u128) -> (games: Vec<ActiveGame>)
        ensures
            games@ == self.active_games@.filter(|g: ActiveGame| g.summoner_id == summoner_id),
    {
        let mut games: Vec<ActiveGame> = Vec::new();
        let ghost pred = |g: ActiveGame| g.summoner_id == summoner_id;
        let mut i: usize = 0;
        proof {
            reveal(Seq::filter);
        }
        while i < self.active_games.len()
            invariant
                i <= self.active_games@.len(),
                pred == (|g: ActiveGame| g.summoner_id == summoner_id),
                games@ == self.active_games@.take(i as int).filter(pred),
            decreases self.active_games@.len() - i,
        {
            proof {
                reveal(Seq::filter);
                let upto = self.active_games@.take(i + 1);
                assert(upto.drop_last() == self.active_games@.take(i as int));
            }
            if self.active_games[i].summoner_id == summoner_id {
                games.push(self.active_games[i].clone());
            }
            i = i + 1;
        }
        assert(self.active_games@.take(i as int) == self.active_games@);
        games
    }

    /// Adds an active-game record, made at `now`. This fails only where the
    /// ids have run out.
    pub fn insert_active_game(&mut self, game: &NewActiveGame, now: Timestamp) -> (added: Result<
        ActiveGame,
        RepositoryError,
    >)
        ensures
            final(self).summoners == old(self).summoners,
            final(self).match_history == old(self).match_history,
            final(self).champions == old(self).champions,
            final(self).events == old(self).events,
            added is Ok <==> old(self).next_id < u128::MAX,
            match added {
                Ok(record) => record == stored_game(*game, old(self).next_id, now)
                    && final(self).active_games@ == old(self).active_games@.push(record),
                Err(_) => final(self).active_games == old(self).active_games,
            },
    {
        match self.take_id() {
            Err(e) => Err(e),
            Ok(id) => {
                let record = ActiveGame {
                    id,
                    summoner_id: game.summoner_id,
                    game_id: game.game_id,
                    champion_id: game.champion_id,
                    game_mode: game.game_mode.clone(),
                    game_start_time: game.game_start_time,
                    created_at: now,
                };
                self.active_games.push(record.clone());
                Ok(record)
            },
        }
    }

    /// Removes a player's active-game records of one game. That there is
    /// none is no failure.
    pub fn delete_active_game_by_summoner_and_game(&mut self, summoner_id: u128, game_id: i64)
        ensures
            final(self).summoners == old(self).summoners,
            final(self).match_history == old(self).match_history,
            final(self).champions == old(self).champions,
            final(self).events == old(self).events,
            final(self).next_id == old(self).next_id,
            final(self).active_games@ == old(self).active_games@.filter(
                |g: ActiveGame| !(g.summoner_id == summoner_id && g.game_id == game_id),
            ),
    {
        let mut kept: Vec<ActiveGame> = Vec::new();
        let ghost pred = |g: ActiveGame| !(g.summoner_id == summoner_id && g.game_id == game_id);
        let mut i: usize = 0;
        proof {
            reveal(Seq::filter);
        }
        while i < self.active_games.len()
            invariant
                i <= self.active_games@.len(),
                pred == (|g: ActiveGame| !(g.summoner_id == summoner_id && g.game_id == game_id)),
                kept@ == self.active_games@.take(i as int).filter(pred),
            decreases self.active_games@.len() - i,
        {
            proof {
                reveal(Seq::filter);
                let upto = self.active_games@.take(i + 1);
                assert(upto.drop_last() == self.active_games@.take(i as int));
            }
            let game = &self.active_games[i];
            if !(game.summoner_id == summoner_id && game.game_id == game_id) {
                kept.push(game.clone());
            }
            i = i + 1;
        }
        assert(self.active_games@.take(i as int) == self.active_games@);
        self.active_games = kept;
    }

    /// The place of a player's result of a match, if there is one.
    fn find_result(&self, summoner_id: u128, match_id: &str) -> (at: Option<usize>)
        ensures
            match at {
                Some(i) => is_first_result_at(self.match_history@, summoner_id, match_id@, i as int),
                None => !has_result(self.match_history@, summoner_id, match_id@),
            },
    {
        let mut i: usize = 0;
        while i < self.match_history.len()
            invariant
                i <= self.match_history@.len(),
                forall|j: int|
                    0 <= j < i ==> !is_result_of(
                        #[trigger] self.match_history@[j],
                        summoner_id,
                        match_id@,
                    ),
            decreases self.match_history@.len() - i,
        {
            let record = &self.match_history[i];
            if record.summoner_id == summoner_id && text_eq(record.match_id.as_str(), match_id) {
                return Some(i);
            }
            i = i + 1;
        }
        None
    }

    /// A player's stored result of a match: the first, if there is one.
    pub fn get_match_history_by_match_id(&self, summoner_id: u128, match_id: &str) -> (found:
        Option<MatchHistory>)
        ensures
            match found {
                Some(record) => exists|at: int|
                    is_first_result_at(self.match_history@, summoner_id, match_id@, at)
                        && record == #[trigger] self.match_history@[at],
                None => !has_result(self.match_history@, summoner_id, match_id@),
            },
    {
        match self.find_result(summoner_id, match_id) {
            Some(at) => Some(self.match_history[at].clone()),
            None => None,
        }
    }

    /// Adds a player's result of a match, made at `now`, unless the player
    /// has one of the match already: then nothing changes, and that is no
    /// failure. The record that was added is handed back. Adding fails only
    /// where the ids have run out.
    pub fn insert_match_result(&mut self, result: &NewMatchResult, now: Timestamp) -> (added:
        Result<Option<MatchHistory>, RepositoryError>)
        ensures
            final(self).summoners == old(self).summoners,
            final(self).active_games == old(self).active_games,
            final(self).champions == old(self).champions,
            final(self).events == old(self).events,
            has_result(old(self).match_history@, result.summoner_id, result.match_id@) ==> added
                == Ok::<Option<MatchHistory>, RepositoryError>(None) && final(self).match_history
                == old(self).match_history && final(self).next_id == old(self).next_id,
            added is Ok ==> final(self).match_history@ == results_with(
                old(self).match_history@,
                *result,
                old(self).next_id,
                now,
            ),
            !has_result(old(self).match_history@, result.summoner_id, result.match_id@)
                ==> match added {
                Ok(Some(record)) => record == stored_result(*result, old(self).next_id, now)
                    && final(self).match_history@ == old(self).match_history@.push(record),
                Ok(None) => false,
                Err(_) => final(self).match_history == old(self).match_history,
            },
            added is Err <==> !has_result(
                old(self).match_history@,
                result.summoner_id,
                result.match_id@,
            ) && old(self).next_id == u128::MAX,
            results_unique(old(self).match_history@) ==> results_unique(final(self).match_history@),
    {
        match self.find_result(result.summoner_id, result.match_id.as_str()) {
            Some(_) => Ok(None),
            None => match self.take_id() {
                Err(e) => Err(e),
                Ok(id) => {
                    let record = MatchHistory {
                        id,
                        summoner_id: result.summoner_id,
                        match_id: result.match_id.clone(),
                        game_id: result.game_id,
                        win: result.win,
                        kills: result.kills,
                        deaths: result.deaths,
                        assists: result.assists,
                        champion_id: result.champion_id,
                        game_duration_secs: result.game_duration_secs,
                        game_mode: result.game_mode.clone(),
                        role: Some(result.role.clone()),
                        finished_at: result.finished_at,
                        created_at: now,
                        total_cs: result.total_cs,
                        total_gold: result.total_gold,
                        total_damage: result.total_damage,
                        enemy_champion_name: clone_text(&result.enemy_champion_name),
                        enemy_cs: result.enemy_cs,
                        enemy_gold: result.enemy_gold,
                        enemy_damage: result.enemy_damage,
                    };
                    self.match_history.push(record.clone());
                    Ok(Some(record))
                },
            },
        }
    }

    /// The name of a champion: the first record with its number.
    pub fn get_champion_by_id(&self, champion_id: i32) -> (found: Option<Champion>)
        ensures
            match found {
                Some(champion) => exists|at: int|
                    is_first_champion_at(self.champions@, champion_id, at) && champion
                        == #[trigger] self.champions@[at],
                None => forall|i: int|
                    0 <= i < self.champions@.len() ==> (#[trigger] self.champions@[i]).champion_id
                        != champion_id,
            },
    {
        let mut i: usize = 0;
        while i < self.champions.len()
            invariant
                i <= self.champions@.len(),
                forall|j: int|
                    0 <= j < i ==> (#[trigger] self.champions@[j]).champion_id != champion_id,
            decreases self.champions@.len() - i,
        {
            if self.champions[i].champion_id == champion_id {
                return Some(self.champions[i].clone());
            }
            i = i + 1;
        }
        None
    }

    /// Queues a notification at `now`, at its place by that time. A queue
    /// that stands oldest first goes on standing so. This fails only where
    /// the ids have run out.
    pub fn insert_notification_event(&mut self, event: &NewNotificationEvent, now: Timestamp) -> (added:
        Result<NotificationEvent, RepositoryError>)
        ensures
            final(self).summoners == old(self).summoners,
            final(self).active_games == old(self).active_games,
            final(self).match_history == old(self).match_history,
            final(self).champions == old(self).champions,
            added is Ok <==> old(self).next_id < u128::MAX,
            match added {
                Ok(record) => record == queued_event(*event, old(self).next_id, now)
                    && final(self).events@ == old(self).events@.insert(
                    queue_place(old(self).events@, now),
                    record,
                ),
                Err(_) => final(self).events == old(self).events,
            },
            oldest_first(old(self).events@) ==> oldest_first(final(self).events@),
    {
        match self.take_id() {
            Err(e) => Err(e),
            Ok(id) => {
                let record = NotificationEvent {
                    id,
                    summoner_id: event.summoner_id,
                    event_type: event.event_type.clone(),
                    game_id: event.game_id,
                    match_id: clone_text(&event.match_id),
                    champion_id: event.champion_id,
                    champion_name: event.champion_name.clone(),
                    role: clone_text(&event.role),
                    win: event.win,
                    kills: event.kills,
                    deaths: event.deaths,
                    assists: event.assists,
                    game_duration_secs: event.game_duration_secs,
                    game_mode: event.game_mode.clone(),
                    queue_id: None,
                    is_featured_mode: event.is_featured_mode,
                    total_cs: event.total_cs,
                    total_gold: event.total_gold,
                    total_damage: event.total_damage,
                    enemy_champion_name: clone_text(&event.enemy_champion_name),
                    enemy_cs: event.enemy_cs,
                    enemy_gold: event.enemy_gold,
                    enemy_damage: event.enemy_damage,
                    processed: false,
                    created_at: now,
                    processed_at: None,
                };
                let mut place: usize = self.events.len();
                assert(self.events@.take(place as int) == self.events@);
                while place > 0 && self.events[place - 1].created_at.is_after(&now)
                    invariant
                        place <= self.events@.len(),
                        queue_place(self.events@, now) == queue_place(
                            self.events@.take(place as int),
                            now,
                        ),
                    decreases place,
                {
                    proof {
                        let upto = self.events@.take(place as int);
                        assert(upto.drop_last() == self.events@.take(place - 1));
                    }
                    place = place - 1;
                }
                proof {
                    if oldest_first(self.events@) {
                        lemma_queue_stays_oldest_first(self.events@, record);
                    }
                }
                self.events.insert(place, record.clone());
                Ok(record)
            },
        }
    }

    /// The queued notifications that are not processed yet, in the order of
    /// the queue.
    pub fn get_pending_notification_events(&self) -> (pending: Vec<NotificationEvent>)
        ensures
            pending@ == self.events@.filter(|e: NotificationEvent| !e.processed),
            oldest_first(self.events@) ==> oldest_first(pending@),
    {
        let mut pending: Vec<NotificationEvent> = Vec::new();
        let ghost pred = |e: NotificationEvent| !e.processed;
        proof {
            if oldest_first(self.events@) {
                lemma_choice_stays_oldest_first(self.events@, pred);
            }
        }
        let mut i: usize = 0;
        proof {
            reveal(Seq::filter);
        }
        while i < self.events.len()
            invariant
                i <= self.events@.len(),
                pred == (|e: NotificationEvent| !e.processed),
                pending@ == self.events@.take(i as int).filter(pred),
            decreases self.events@.len() - i,
        {
            proof {
                reveal(Seq::filter);
                let upto = self.events@.take(i + 1);
                assert(upto.drop_last() == self.events@.take(i as int));
            }
            if !self.events[i].processed {
                pending.push(self.events[i].clone());
            }
            i = i + 1;
        }
        assert(self.events@.take(i as int) == self.events@);
        pending
    }

    /// Marks the notifications with these ids as processed at `now`, and
    /// leaves the others as they are.
    pub fn mark_notifications_processed(&mut self, event_ids: &Vec<u128>, now: Timestamp)
        ensures
            final(self).summoners == old(self).summoners,
            final(self).active_games == old(self).active_games,
            final(self).match_history == old(self).match_history,
            final(self).champions == old(self).champions,
            final(self).next_id == old(self).next_id,
            final(self).events@ == old(self).events@.map_values(
                |e: NotificationEvent|
                    if event_ids@.contains(e.id) {
                        marked(e, now)
                    } else {
                        e
                    },
            ),
            oldest_first(old(self).events@) ==> oldest_first(final(self).events@),
    {
        let mut updated: Vec<NotificationEvent> = Vec::new();
        let ghost change = |e: NotificationEvent|
            if event_ids@.contains(e.id) {
                marked(e, now)
            } else {
                e
            };
        let mut i: usize = 0;
        while i < self.events.len()
            invariant
                i <= self.events@.len(),
                change == (|e: NotificationEvent|
                    if event_ids@.contains(e.id) {
                        marked(e, now)
                    } else {
                        e
                    }),
                updated@ == self.events@.take(i as int).map_values(change),
            decreases self.events@.len() - i,
        {
            let mut event = self.events[i].clone();
            if contains_id(event_ids, event.id) {
                event.processed = true;
                event.processed_at = Some(now);
            }
            updated.push(event);
            i = i + 1;
        }
        self.events = updated;
    }

    /// Answers a request as the store does, at the time `now`; a request
    /// that is not for the store has no answer and changes nothing.
    pub fn perform(&mut self, request: &Request, now: Timestamp) -> (reply: Option<Reply>)
        ensures
            reply is Some <==> is_for_store(*request),
            answers(*old(self), *request, now, *final(self), reply),
            old(self).well_formed() ==> final(self).well_formed(),
    {
        match request {
            Request::GetAllSummoners => Some(Reply::Summoners(self.get_all_summoners())),
            Request::GetActiveGamesForSummoner { summoner_id } => Some(
                Reply::ActiveGames(self.get_active_games_for_summoner(*summoner_id)),
            ),
            Request::InsertActiveGame(game) => match self.insert_active_game(game, now) {
                Ok(_) => Some(Reply::Written),
                Err(e) => Some(Reply::RepositoryFailed(e)),
            },
            Request::DeleteActiveGameBySummonerAndGame { summoner_id, game_id } => {
                self.delete_active_game_by_summoner_and_game(*summoner_id, *game_id);
                Some(Reply::Written)
            },
            Request::InsertMatchResult(result) => match self.insert_match_result(result, now) {
                Ok(_) => Some(Reply::Written),
                Err(e) => Some(Reply::RepositoryFailed(e)),
            },
            Request::GetMatchHistoryByMatchId { summoner_id, match_id } => Some(
                Reply::MatchHistory(
                    self.get_match_history_by_match_id(*summoner_id, match_id.as_str()),
                ),
            ),
            Request::GetChampionById { champion_id } => Some(
                Reply::Champion(self.get_champion_by_id(*champion_id)),
            ),
            Request::InsertNotificationEvent(event) => match self.insert_notification_event(
                event,
                now,
            ) {
                Ok(_) => Some(Reply::Written),
                Err(e) => Some(Reply::RepositoryFailed(e)),
            },
            Request::GetPendingNotificationEvents => Some(
                Reply::PendingEvents(self.get_pending_notification_events()),
            ),
            Request::MarkNotificationsProcessed { event_ids } => {
                self.mark_notifications_processed(event_ids, now);
                Some(Reply::Written)
            },
            _ => None,
        }
    }
}

/// Whether the store keeps the same records in every table but, maybe, the
/// one that `changed` names: 1 the active games, 2 the match results, 3 the
/// notifications.
pub open spec fn same_but(before: MemoryRepository, after: MemoryRepository, changed: int) -> bool {
    &&& after.summoners == before.summoners
    &&& after.champions == before.champions
    &&& changed == 1 || after.active_games == before.active_games
    &&& changed == 2 || after.match_history == before.match_history
    &&& changed == 3 || after.events == before.events
}

/// Whether `reply` is the store's answer to `request` at the time `now`, and
/// `after` the store that the answer leaves: each request is answered as the
/// operation of its name answers, a change that was made with `Written`, one
/// that could not be made with the failure. A record cannot be added where
/// the ids have run out, and nothing else fails.
pub open spec fn answers(
    before: MemoryRepository,
    request: Request,
    now: Timestamp,
    after: MemoryRepository,
    reply: Option<Reply>,
) -> bool {
    match request {
        Request::GetAllSummoners => {
            &&& after == before
            &&& reply matches Some(Reply::Summoners(all))
            &&& all@ == before.summoners@
        },
        Request::GetActiveGamesForSummoner { summoner_id } => {
            &&& after == before
            &&& reply matches Some(Reply::ActiveGames(games))
            &&& games@ == before.active_games@.filter(|g: ActiveGame| g.summoner_id == summoner_id)
        },
        Request::InsertActiveGame(game) => {
            &&& same_but(before, after, 1)
            &&& reply == Some(Reply::Written) <==> before.next_id < u128::MAX
            &&& match reply {
                Some(Reply::Written) => after.active_games@ == before.active_games@.push(
                    stored_game(game, before.next_id, now),
                ),
                Some(Reply::RepositoryFailed(_)) => after.active_games == before.active_games,
                _ => false,
            }
        },
        Request::DeleteActiveGameBySummonerAndGame { summoner_id, game_id } => {
            &&& same_but(before, after, 1)
            &&& reply == Some(Reply::Written)
            &&& after.active_games@ == before.active_games@.filter(
                |g: ActiveGame| !(g.summoner_id == summoner_id && g.game_id == game_id),
            )
        },
        Request::InsertMatchResult(result) => {
            &&& same_but(before, after, 2)
            &&& results_unique(before.match_history@) ==> results_unique(after.match_history@)
            &&& if has_result(before.match_history@, result.summoner_id, result.match_id@) {
                reply == Some(Reply::Written) && after.match_history == before.match_history
            } else {
                &&& reply == Some(Reply::Written) <==> before.next_id < u128::MAX
                &&& match reply {
                    Some(Reply::Written) => after.match_history@ == before.match_history@.push(
                        stored_result(result, before.next_id, now),
                    ),
                    Some(Reply::RepositoryFailed(_)) => after.match_history
                        == before.match_history,
                    _ => false,
                }
            }
        },
        Request::GetMatchHistoryByMatchId { summoner_id, match_id } => {
            &&& after == before
            &&& reply matches Some(Reply::MatchHistory(found))
            &&& match found {
                Some(record) => exists|at: int|
                    is_first_result_at(before.match_history@, summoner_id, match_id@, at)
                        && record == #[trigger] before.match_history@[at],
                None => !has_result(before.match_history@, summoner_id, match_id@),
            }
        },
        Request::GetChampionById { champion_id } => {
            &&& after == before
            &&& reply matches Some(Reply::Champion(found))
            &&& match found {
                Some(champion) => exists|at: int|
                    is_first_champion_at(before.champions@, champion_id, at) && champion
                        == #[trigger] before.champions@[at],
                None => forall|i: int|
                    0 <= i < before.champions@.len() ==> (
                    #[trigger] before.champions@[i]).champion_id != champion_id,
            }
        },
        Request::InsertNotificationEvent(event) => {
            &&& same_but(before, after, 3)
            &&& oldest_first(before.events@) ==> oldest_first(after.events@)
            &&& reply == Some(Reply::Written) <==> before.next_id < u128::MAX
            &&& match reply {
                Some(Reply::Written) => after.events@ == before.events@.insert(
                    queue_place(before.events@, now),
                    queued_event(event, before.next_id, now),
                ),
                Some(Reply::RepositoryFailed(_)) => after.events == before.events,
                _ => false,
            }
        },
        Request::GetPendingNotificationEvents => {
            &&& after == before
            &&& reply matches Some(Reply::PendingEvents(pending))
            &&& pending@ == before.events@.filter(|e: NotificationEvent| !e.processed)
        },
        Request::MarkNotificationsProcessed { event_ids } => {
            &&& same_but(before, after, 3)
            &&& reply == Some(Reply::Written)
            &&& after.events@ == before.events@.map_values(
                |e: NotificationEvent|
                    if event_ids@.contains(e.id) {
                        marked(e, now)
                    } else {
                        e
                    },
            )
        },
        _ => after == before && reply is None,
    }
}

/// Whether the request is one of the store.
pub open spec fn is_for_store(request: Request) -> bool {
    match request {
        Request::GetAllSummoners => true,
        Request::GetActiveGamesForSummoner { .. } => true,
        Request::InsertActiveGame(_) => true,
        Request::DeleteActiveGameBySummonerAndGame { .. } => true,
        Request::InsertMatchResult(_) => true,
        Request::GetMatchHistoryByMatchId { .. } => true,
        Request::GetChampionById { .. } => true,
        Request::InsertNotificationEvent(_) => true,
        Request::GetPendingNotificationEvents => true,
        Request::MarkNotificationsProcessed { .. } => true,
        _ => false,
    }
}

fn contains_id(ids: &Vec<u128>, id: u128) -> (yes: bool)
    ensures
        yes == ids@.contains(id),
{
    let mut i: usize = 0;
    while i < ids.len()
        invariant
            i <= ids@.len(),
            forall|j: int| 0 <= j < i ==> ids@[j] != id,
        decreases ids@.len() - i,
    {
        if ids[i] == id {
            return true;
        }
        i = i + 1;
    }
    false
}

} // verus!
