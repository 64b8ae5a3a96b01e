//! The notification processor: it takes the queued notifications that have
//! waited long enough, groups those of one game, has each group delivered as
//! one message, and marks a delivered group as processed.

use crate::db::models::{NotificationEvent, Summoner, Timestamp};
use crate::db::repository::RepositoryError;
use crate::exchange::{Progress, Reply, Request, Step};
use crate::notification::messages::{
    embed_content, ended_content, first_queue, format_grouped_game_ended,
    format_grouped_game_started, started_content, EventLines,
};
use crate::text::text_eq;
use serenity::builder::CreateEmbed;
use vstd::prelude::*;

verus! {

/// The seconds a notification waits in the queue before it is delivered, so
/// that the notifications of the other players in the game can join it.
pub const GRACE_SECS: u64 = 30;

/// What groups notifications: the game that started, or the match that
/// ended.
pub enum GroupKey {
    Started(i64),
    Ended(Seq<char>),
}

/// Whether the notification has waited long enough by the time `now`.
pub open spec fn is_due(event: NotificationEvent, now: Timestamp) -> bool {
    now.total_nanos() - event.created_at.total_nanos() >= GRACE_SECS * 1_000_000_000
}

/// What the notification is grouped by: its game where it tells of a start,
/// its match where it tells of an end and names one. A notification of
/// another kind, or of an end without a match, is in no group.
pub open spec fn group_key(event: NotificationEvent) -> Option<GroupKey> {
    if event.event_type@ == "GAME_STARTED"@ {
        Some(GroupKey::Started(event.game_id))
    } else if event.event_type@ == "GAME_ENDED"@ {
        match event.match_id {
            Some(match_id) => Some(GroupKey::Ended(match_id@)),
            None => None,
        }
    } else {
        None
    }
}

/// Whether `event` is in the group that `leader` stands for at the time
/// `now`: it is due, and it is grouped by what `leader` is grouped by.
pub open spec fn in_group(event: NotificationEvent, leader: NotificationEvent, now: Timestamp)
    -> bool {
    is_due(event, now) && group_key(event) is Some && group_key(event) == group_key(leader)
}

/// Whether the notification at `at` is the first of its group: it is in a
/// group, and none before it is in the same.
pub open spec fn leads(events: Seq<NotificationEvent>, now: Timestamp, at: int) -> bool {
    &&& 0 <= at < events.len()
    &&& in_group(events[at], events[at], now)
    &&& forall|j: int| 0 <= j < at ==> !in_group(#[trigger] events[j], events[at], now)
}

/// Whether the notification tells of an end.
pub open spec fn tells_end(event: NotificationEvent) -> bool {
    group_key(event) matches Some(GroupKey::Ended(_))
}

/// The first notification from `from` on that leads a group of the kind
/// asked for: of ended games if `ended`, of started games if not.
pub open spec fn next_leader(
    events: Seq<NotificationEvent>,
    now: Timestamp,
    ended: bool,
    from: int,
) -> Option<int>
    decreases events.len() - from,
{
    if from < 0 || from >= events.len() {
        None
    } else if leads(events, now, from) && tells_end(events[from]) == ended {
        Some(from)
    } else {
        next_leader(events, now, ended, from + 1)
    }
}

/// The group that the notification at `leader` stands for: the due
/// notifications that are grouped by what it is grouped by, in the order of
/// the queue.
pub open spec fn group_of(events: Seq<NotificationEvent>, now: Timestamp, leader: int) -> Seq<
    NotificationEvent,
> {
    if 0 <= leader < events.len() {
        events.filter(|e: NotificationEvent| in_group(e, events[leader], now))
    } else {
        Seq::empty()
    }
}

/// The ids of the notifications, in their order.
pub open spec fn event_ids(events: Seq<NotificationEvent>) -> Seq<u128> {
    events.map_values(|e: NotificationEvent| e.id)
}

/// The players of the notifications, in their order.
pub open spec fn summoner_ids(events: Seq<NotificationEvent>) -> Seq<u128> {
    events.map_values(|e: NotificationEvent| e.summoner_id)
}

/// Whether the notification has waited long enough by the time `now`.
pub fn due(event: &NotificationEvent, now: &Timestamp) -> (yes: bool)
    ensures
        yes == is_due(*event, *now),
{
    now.is_past(&event.created_at, GRACE_SECS)
}

proof fn lemma_kinds_differ()
    ensures
        "GAME_STARTED"@ != "GAME_ENDED"@,
{
    reveal_strlit("GAME_STARTED");
    reveal_strlit("GAME_ENDED");
    assert("GAME_STARTED"@.len() != "GAME_ENDED"@.len());
}

/// Whether the notification is in a group, and tells of an end if `ended`,
/// of a start if not.
fn is_of_kind(event: &NotificationEvent, ended: bool) -> (yes: bool)
    ensures
        yes == (group_key(*event) is Some && tells_end(*event) == ended),
{
    if text_eq(event.event_type.as_str(), "GAME_STARTED") {
        !ended
    } else if text_eq(event.event_type.as_str(), "GAME_ENDED") {
        event.match_id.is_some() && ended
    } else {
        false
    }
}

/// Whether the notification is in a group, and `other` is grouped by the
/// same.
fn same_key(event: &NotificationEvent, other: &NotificationEvent) -> (yes: bool)
    ensures
        yes == (group_key(*event) is Some && group_key(*event) == group_key(*other)),
{
    proof {
        lemma_kinds_differ();
    }
    if text_eq(event.event_type.as_str(), "GAME_STARTED") {
        text_eq(other.event_type.as_str(), "GAME_STARTED") && event.game_id == other.game_id
    } else if text_eq(event.event_type.as_str(), "GAME_ENDED") {
        match (&event.match_id, &other.match_id) {
            (Some(a), Some(b)) => text_eq(other.event_type.as_str(), "GAME_ENDED") && text_eq(
                a.as_str(),
                b.as_str(),
            ),
            _ => false,
        }
    } else {
        false
    }
}

/// Whether `event` is in the group that `leader` stands for.
pub fn is_in_group(event: &NotificationEvent, leader: &NotificationEvent, now: &Timestamp) -> (yes:
    bool)
    ensures
        yes == in_group(*event, *leader, *now),
{
    due(event, now) && same_key(event, leader)
}

/// Whether the notification at `at` is the first of its group.
fn is_leader(events: &Vec<NotificationEvent>, now: &Timestamp, at: usize) -> (yes: bool)
    requires
        at < events@.len(),
    ensures
        yes == leads(events@, *now, at as int),
{
    if !is_in_group(&events[at], &events[at], now) {
        return false;
    }
    let mut j: usize = 0;
    while j < at
        invariant
            j <= at < events@.len(),
            forall|k: int| 0 <= k < j ==> !in_group(#[trigger] events@[k], events@[at as int], *now),
        decreases at - j,
    {
        if is_in_group(&events[j], &events[at], now) {
            return false;
        }
        j = j + 1;
    }
    true
}

/// The first notification from `from` on that leads a group of the kind
/// asked for.
pub fn find_leader(events: &Vec<NotificationEvent>, now: &Timestamp, ended: bool, from: usize) -> (at:
    Option<usize>)
    ensures
        match at {
            Some(i) => next_leader(events@, *now, ended, from as int) == Some(i as int) && i
                < events@.len(),
            None => next_leader(events@, *now, ended, from as int) is None,
        },
{
    let mut i: usize = from;
    while i < events.len()
        invariant
            from <= i,
            next_leader(events@, *now, ended, from as int) == next_leader(
                events@,
                *now,
                ended,
                i as int,
            ),
        decreases events@.len() - i,
    {
        if is_of_kind(&events[i], ended) && is_leader(events, now, i) {
            return Some(i);
        }
        i = i + 1;
    }
    None
}

/// The group that the notification at `leader` stands for.
pub fn group_events(events: &Vec<NotificationEvent>, now: &Timestamp, leader: usize) -> (group: Vec<
    NotificationEvent,
>)
    ensures
        group@ == group_of(events@, *now, leader as int),
{
    let mut group: Vec<NotificationEvent> = Vec::new();
    if leader >= events.len() {
        return group;
    }
    let ghost pred = |e: NotificationEvent| in_group(e, events@[leader as int], *now);
    let mut i: usize = 0;
    proof {
        reveal(Seq::filter);
    }
    while i < events.len()
        invariant
            i <= events@.len(),
            leader < events@.len(),
            pred == (|e: NotificationEvent| in_group(e, events@[leader as int], *now)),
            group@ == events@.take(i as int).filter(pred),
        decreases events@.len() - i,
    {
        proof {
            reveal(Seq::filter);
            let upto = events@.take(i + 1);
            assert(upto.drop_last() == events@.take(i as int));
        }
        if is_in_group(&events[i], &events[leader], now) {
            group.push(events[i].clone());
        }
        i = i + 1;
    }
    assert(events@.take(i as int) == events@);
    group
}

/// The ids of the notifications, in their order.
pub fn ids_of(events: &Vec<NotificationEvent>) -> (ids: Vec<u128>)
    ensures
        ids@ == event_ids(events@),
{
    let mut ids: Vec<u128> = Vec::new();
    let mut i: usize = 0;
    while i < events.len()
        invariant
            i <= events@.len(),
            ids@ == event_ids(events@.take(i as int)),
        decreases events@.len() - i,
    {
        ids.push(events[i].id);
        i = i + 1;
    }
    ids
}

/// Whether one of the notifications is the player's.
fn concerns(events: &Vec<NotificationEvent>, summoner_id: u128) -> (yes: bool)
    ensures
        yes == summoner_ids(events@).contains(summoner_id),
{
    let mut i: usize = 0;
    while i < events.len()
        invariant
            i <= events@.len(),
            forall|k: int| 0 <= k < i ==> events@[k].summoner_id != summoner_id,
        decreases events@.len() - i,
    {
        if events[i].summoner_id == summoner_id {
            assert(summoner_ids(events@)[i as int] == summoner_id);
            return true;
        }
        i = i + 1;
    }
    false
}

/// The players that the notifications are about: those of `all` who have a
/// notification among `events`, in the order of `all`.
pub open spec fn concerned(all: Seq<Summoner>, events: Seq<NotificationEvent>) -> Seq<Summoner> {
    all.filter(|s: Summoner| summoner_ids(events).contains(s.id))
}

/// The players that the notifications are about.
pub fn fetch_summoners(all: &Vec<Summoner>, events: &Vec<NotificationEvent>) -> (summoners: Vec<
    Summoner,
>)
    ensures
        summoners@ == concerned(all@, events@),
{
    let mut summoners: Vec<Summoner> = Vec::new();
    let ghost pred = |s: Summoner| summoner_ids(events@).contains(s.id);
    let mut i: usize = 0;
    proof {
        reveal(Seq::filter);
    }
    while i < all.len()
        invariant
            i <= all@.len(),
            pred == (|s: Summoner| summoner_ids(events@).contains(s.id)),
            summoners@ == all@.take(i as int).filter(pred),
        decreases all@.len() - i,
    {
        proof {
            reveal(Seq::filter);
            let upto = all@.take(i + 1);
            assert(upto.drop_last() == all@.take(i as int));
        }
        if concerns(events, all[i].id) {
            summoners.push(all[i].clone());
        }
        i = i + 1;
    }
    assert(all@.take(i as int) == all@);
    summoners
}

/// A cycle of the processor under way: the notifications that were pending
/// when it began, the time it began at, and the group it is at, which is the
/// one that the notification at `leader` stands for. The groups of started
/// games come first, those of ended games after them.
#[derive(Debug)]
pub struct Cycle {
    pub events: Vec<NotificationEvent>,
    pub now: Timestamp,
    pub ended: bool,
    pub leader: usize,
}

/// What the processor is waiting for.
#[derive(Debug)]
pub enum ProcessState {
    /// The pending notifications.
    Pending,
    /// The tracked players, of whom the group's are shown.
    Summoners(Cycle),
    /// The delivery of the group's message.
    Deliver { cycle: Cycle, summoners: Vec<Summoner> },
    /// The group's notifications being marked as processed.
    Mark(Cycle),
}

/// The outcome of a cycle.
pub type ProcessStep = Step<ProcessState, Result<(), RepositoryError>>;

/// The outcome of a cycle, without the request.
pub type ProcessProgress = Progress<ProcessState, Result<(), RepositoryError>>;

/// Where a cycle goes as it looks for the next group from `from` on: to the
/// first group of the kind it is at; from the groups of started games on to
/// the first of an ended game where no started one is left; and to its end
/// where none is left at all.
pub open spec fn seek(events: Vec<NotificationEvent>, now: Timestamp, ended: bool, from: int)
    -> ProcessProgress {
    match next_leader(events@, now, ended, from) {
        Some(leader) => Progress::Waiting(
            ProcessState::Summoners(Cycle { events, now, ended, leader: leader as usize }),
        ),
        None => if ended {
            Progress::Finished(Ok(()))
        } else {
            match next_leader(events@, now, true, 0) {
                Some(leader) => Progress::Waiting(
                    ProcessState::Summoners(
                        Cycle { events, now, ended: true, leader: leader as usize },
                    ),
                ),
                None => Progress::Finished(Ok(())),
            }
        },
    }
}

/// Where a cycle goes once it is done with the group it is at.
pub open spec fn seek_on(cycle: Cycle) -> ProcessProgress {
    seek(cycle.events, cycle.now, cycle.ended, cycle.leader + 1)
}

/// One step of a cycle: where it goes from `state` on `reply`, received at
/// the time `now`.
///
/// The cycle begins at the time the pending notifications arrive, and that
/// time decides which of them are due. Each group has its players looked
/// up, its message delivered, and its notifications marked, in this order.
/// Whatever fails for a group, the cycle leaves the group as it is and goes
/// on to the next: only a delivered group is marked. The cycle fails only
/// where the pending notifications cannot be had. A reply that answers
/// another question leaves the cycle where it is.
pub open spec fn process_next(state: ProcessState, reply: Reply, now: Timestamp)
    -> ProcessProgress {
    match state {
        ProcessState::Pending => match reply {
            Reply::PendingEvents(events) => seek(events, now, false, 0),
            Reply::RepositoryFailed(e) => Progress::Finished(Err(e)),
            _ => Progress::Waiting(state),
        },
        ProcessState::Summoners(cycle) => match reply {
            Reply::Summoners(summoners) => Progress::Waiting(
                ProcessState::Deliver { cycle, summoners },
            ),
            Reply::RepositoryFailed(_) => seek_on(cycle),
            _ => Progress::Waiting(state),
        },
        ProcessState::Deliver { cycle, summoners } => match reply {
            Reply::Sent => Progress::Waiting(ProcessState::Mark(cycle)),
            Reply::SendFailed(_) => seek_on(cycle),
            _ => Progress::Waiting(state),
        },
        ProcessState::Mark(cycle) => match reply {
            Reply::Written => seek_on(cycle),
            Reply::RepositoryFailed(_) => seek_on(cycle),
            _ => Progress::Waiting(state),
        },
    }
}

/// Whether `request` is the one that a cycle is waiting on in `state`. The
/// message of a group goes out with the group's notifications and with those
/// of the tracked players that they are about; the mark is asked for the
/// group's notifications, all of them.
pub open spec fn process_request_fits(state: ProcessState, request: Request) -> bool {
    match state {
        ProcessState::Pending => request == Request::GetPendingNotificationEvents,
        ProcessState::Summoners(_) => request == Request::GetAllSummoners,
        ProcessState::Deliver { cycle, summoners } => {
            let group = group_of(cycle.events@, cycle.now, cycle.leader as int);
            if cycle.ended {
                &&& request matches Request::SendEndedSummary { summoners: shown, events }
                &&& events@ == group
                &&& shown@ == concerned(summoners@, group)
            } else {
                &&& request matches Request::SendStartedSummary { summoners: shown, events }
                &&& events@ == group
                &&& shown@ == concerned(summoners@, group)
            }
        },
        ProcessState::Mark(cycle) => {
            &&& request matches Request::MarkNotificationsProcessed { event_ids: ids }
            &&& ids@ == event_ids(group_of(cycle.events@, cycle.now, cycle.leader as int))
        },
    }
}

/// The request that a cycle is waiting on in `state`.
pub fn process_request(state: &ProcessState) -> (request: Request)
    ensures
        process_request_fits(*state, request),
{
    match state {
        ProcessState::Pending => Request::GetPendingNotificationEvents,
        ProcessState::Summoners(_) => Request::GetAllSummoners,
        ProcessState::Deliver { cycle, summoners } => {
            let events = group_events(&cycle.events, &cycle.now, cycle.leader);
            let shown = fetch_summoners(summoners, &events);
            if cycle.ended {
                Request::SendEndedSummary { summoners: shown, events }
            } else {
                Request::SendStartedSummary { summoners: shown, events }
            }
        },
        ProcessState::Mark(cycle) => {
            let events = group_events(&cycle.events, &cycle.now, cycle.leader);
            Request::MarkNotificationsProcessed { event_ids: ids_of(&events) }
        },
    }
}

fn ask_process(state: ProcessState) -> (step: ProcessStep)
    ensures
        step.progress() == Progress::<ProcessState, Result<(), RepositoryError>>::Waiting(state),
        step matches Step::Ask(s, r) && process_request_fits(s, r),
{
    let request = process_request(&state);
    Step::Ask(state, request)
}

fn seek_group(events: Vec<NotificationEvent>, now: Timestamp, ended: bool, from: usize) -> (step:
    ProcessStep)
    ensures
        step.progress() == seek(events, now, ended, from as int),
        step matches Step::Ask(s, r) ==> process_request_fits(s, r),
{
    match find_leader(&events, &now, ended, from) {
        Some(leader) => ask_process(ProcessState::Summoners(Cycle { events, now, ended, leader })),
        None => {
            if ended {
                Step::Done(Ok(()))
            } else {
                match find_leader(&events, &now, true, 0) {
                    Some(leader) => ask_process(
                        ProcessState::Summoners(Cycle { events, now, ended: true, leader }),
                    ),
                    None => Step::Done(Ok(())),
                }
            }
        },
    }
}

fn seek_next(cycle: Cycle) -> (step: ProcessStep)
    ensures
        step.progress() == seek_on(cycle),
        step matches Step::Ask(s, r) ==> process_request_fits(s, r),
{
    if cycle.leader < cycle.events.len() {
        let from = cycle.leader + 1;
        seek_group(cycle.events, cycle.now, cycle.ended, from)
    } else {
        // Past the end of the queue no group of either kind begins.
        proof {
            lemma_none_past_end(cycle.events@, cycle.now, cycle.ended, cycle.leader + 1);
        }
        seek_group(cycle.events, cycle.now, cycle.ended, cycle.leader)
    }
}

/// From the end of the queue on, no notification leads a group.
pub proof fn lemma_none_past_end(
    events: Seq<NotificationEvent>,
    now: Timestamp,
    ended: bool,
    from: int,
)
    requires
        from >= events.len(),
    ensures
        next_leader(events, now, ended, from) is None,
{
}

/// The processor's settings.
#[derive(Clone, Copy, Debug)]
pub struct NotificationProcessor {
    /// The channel that the messages go to.
    pub channel_id: u64,
    /// The seconds between two cycles.
    pub interval_secs: u64,
}

impl NotificationProcessor {
    pub fn new(channel_id: u64, interval_secs: u64) -> (processor: Self)
        ensures
            processor.channel_id == channel_id,
            processor.interval_secs == interval_secs,
    {
        NotificationProcessor { channel_id, interval_secs }
    }

    /// Begins a cycle: the store is asked for the pending notifications.
    pub fn start(&self) -> (step: ProcessStep)
        ensures
            step == Step::<ProcessState, Result<(), RepositoryError>>::Ask(
                ProcessState::Pending,
                Request::GetPendingNotificationEvents,
            ),
    {
        ask_process(ProcessState::Pending)
    }

    /// Goes on with a cycle, on the reply to its last request, received at
    /// the time `now`.
    pub fn process_pending_events(&self, state: ProcessState, reply: Reply, now: Timestamp) -> (step:
        ProcessStep)
        ensures
            step.progress() == process_next(state, reply, now),
            step matches Step::Ask(s, r) ==> process_request_fits(s, r),
    {
        match state {
            ProcessState::Pending => match reply {
                Reply::PendingEvents(events) => seek_group(events, now, false, 0),
                Reply::RepositoryFailed(e) => Step::Done(Err(e)),
                _ => ask_process(ProcessState::Pending),
            },
            ProcessState::Summoners(cycle) => match reply {
                Reply::Summoners(summoners) => ask_process(
                    ProcessState::Deliver { cycle, summoners },
                ),
                Reply::RepositoryFailed(_) => seek_next(cycle),
                _ => ask_process(ProcessState::Summoners(cycle)),
            },
            ProcessState::Deliver { cycle, summoners } => match reply {
                Reply::Sent => ask_process(ProcessState::Mark(cycle)),
                Reply::SendFailed(_) => seek_next(cycle),
                _ => ask_process(ProcessState::Deliver { cycle, summoners }),
            },
            ProcessState::Mark(cycle) => match reply {
                Reply::Written => seek_next(cycle),
                Reply::RepositoryFailed(_) => seek_next(cycle),
                _ => ask_process(ProcessState::Mark(cycle)),
            },
        }
    }

    /// Goes on with a cycle at the current time.
    pub fn process_pending_events_now(&self, state: ProcessState, reply: Reply) -> (step:
        ProcessStep)
        ensures
            exists|now: Timestamp| step.progress() == #[trigger] process_next(state, reply, now),
            step matches Step::Ask(s, r) ==> process_request_fits(s, r),
    {
        let now = Timestamp::now();
        self.process_pending_events(state, reply, now)
    }
}

/// The game mode that a group's message names: that of the first
/// notification.
pub open spec fn group_mode(events: Seq<NotificationEvent>) -> Seq<char> {
    if events.len() > 0 {
        events[0].game_mode@
    } else {
        "UNKNOWN"@
    }
}

/// Whether `champions` lists, for each notification in its place, the player
/// and the champion.
pub open spec fn lists_champions(
    champions: Seq<(u128, String, String)>,
    events: Seq<NotificationEvent>,
) -> bool {
    &&& champions.len() == events.len()
    &&& forall|i: int|
        0 <= i < events.len() ==> (#[trigger] champions[i]).0 == events[i].summoner_id
            && champions[i].1 == events[i].champion_name
}

fn first_mode(events: &Vec<NotificationEvent>) -> (mode: String)
    ensures
        mode@ == group_mode(events@),
{
    if events.len() > 0 {
        events[0].game_mode.clone()
    } else {
        String::from_str("UNKNOWN")
    }
}

/// The message that tells of a group of players starting a game: mode and
/// queue are those of the first notification, and each player is shown with
/// the champion of the player's last notification.
pub fn send_grouped_game_started(summoners: &Vec<Summoner>, events: &Vec<NotificationEvent>) -> (embed:
    CreateEmbed)
    ensures
        exists|champions: Seq<(u128, String, String)>|
            lists_champions(champions, events@) && embed_content(embed) == #[trigger] started_content(
                summoners@,
                champions,
                group_mode(events@),
                first_queue(events@),
            ),
{
    let mut champions: Vec<(u128, String, String)> = Vec::new();
    let mut i: usize = 0;
    while i < events.len()
        invariant
            i <= events@.len(),
            lists_champions(champions@, events@.take(i as int)),
        decreases events@.len() - i,
    {
        champions.push((events[i].summoner_id, events[i].champion_name.clone(), String::new()));
        i = i + 1;
    }
    let mode = first_mode(events);
    let queue_id = if events.len() > 0 {
        events[0].queue_id
    } else {
        None
    };
    format_grouped_game_started(summoners, &champions, mode.as_str(), queue_id)
}

/// The message that tells how a group of players' game ended, in the mode of
/// the first notification. `lines[i]` are the lines of `events[i]`.
pub fn send_grouped_game_ended(
    summoners: &Vec<Summoner>,
    events: &Vec<NotificationEvent>,
    lines: &Vec<EventLines>,
) -> (embed: CreateEmbed)
    ensures
        embed_content(embed) == ended_content(summoners@, events@, group_mode(events@), lines@),
{
    let mode = first_mode(events);
    format_grouped_game_ended(summoners, events, mode.as_str(), lines)
}

/// A notification that is due stays due: at no later time is it held back
/// again.
pub proof fn lemma_due_stays_due(event: NotificationEvent, now: Timestamp, later: Timestamp)
    requires
        is_due(event, now),
        later.total_nanos() >= now.total_nanos(),
    ensures
        is_due(event, later),
{
}

/// Every notification of a group is due and is grouped by what the group's
/// leader is grouped by: a notification that has not waited long enough is
/// in no group, and tellings of a start and of an end never share one.
pub proof fn lemma_group_is_due_and_alike(
    events: Seq<NotificationEvent>,
    now: Timestamp,
    leader: int,
)
    requires
        0 <= leader < events.len(),
    ensures
        forall|k: int|
            0 <= k < group_of(events, now, leader).len() ==> {
                let member = #[trigger] group_of(events, now, leader)[k];
                &&& events.contains(member)
                &&& is_due(member, now)
                &&& group_key(member) == group_key(events[leader])
                &&& tells_end(member) == tells_end(events[leader])
            },
{
    let pred = |e: NotificationEvent| in_group(e, events[leader], now);
    assert forall|k: int| 0 <= k < group_of(events, now, leader).len() implies {
        let member = #[trigger] group_of(events, now, leader)[k];
        &&& events.contains(member)
        &&& is_due(member, now)
        &&& group_key(member) == group_key(events[leader])
        &&& tells_end(member) == tells_end(events[leader])
    } by {
        events.lemma_filter_pred(pred, k);
        let member = events.filter(pred)[k];
        events.lemma_filter_contains_rev(pred, member);
    }
}

/// A notification that is due and is in a group is delivered with it: it is
/// among the notifications of the group that is led by the first one of its
/// kind.
pub proof fn lemma_due_event_is_grouped(events: Seq<NotificationEvent>, now: Timestamp, at: int)
    requires
        0 <= at < events.len(),
        in_group(events[at], events[at], now),
    ensures
        exists|leader: int|
            0 <= leader <= at && #[trigger] leads(events, now, leader) && in_group(
                events[at],
                events[leader],
                now,
            ) && group_of(events, now, leader).contains(events[at]),
    decreases at,
{
    if leads(events, now, at) {
        events.lemma_filter_contains(|e: NotificationEvent| in_group(e, events[at], now), at);
    } else {
        let j = choose|j: int| 0 <= j < at && in_group(#[trigger] events[j], events[at], now);
        lemma_due_event_is_grouped(events, now, j);
        let leader = choose|leader: int|
            0 <= leader <= j && #[trigger] leads(events, now, leader) && in_group(
                events[j],
                events[leader],
                now,
            ) && group_of(events, now, leader).contains(events[j]);
        events.lemma_filter_contains(|e: NotificationEvent| in_group(e, events[leader], now), at);
    }
}

/// Two groups are never grouped by the same: no game has two messages of a
/// kind in one cycle.
pub proof fn lemma_leaders_differ(events: Seq<NotificationEvent>, now: Timestamp, a: int, b: int)
    requires
        leads(events, now, a),
        leads(events, now, b),
        a != b,
    ensures
        group_key(events[a]) != group_key(events[b]),
{
    if a < b {
        assert(!in_group(events[a], events[b], now));
    } else {
        assert(!in_group(events[b], events[a], now));
    }
}

/// The search for the next group passes none by: it finds the first leader
/// of the kind asked for that is at `from` or after it.
pub proof fn lemma_next_leader_is_first(
    events: Seq<NotificationEvent>,
    now: Timestamp,
    ended: bool,
    from: int,
    leader: int,
)
    requires
        0 <= from <= leader,
        leads(events, now, leader),
        tells_end(events[leader]) == ended,
    ensures
        next_leader(events, now, ended, from) matches Some(found) && from <= found <= leader
            && leads(events, now, found) && tells_end(events[found]) == ended,
    decreases leader - from,
{
    if !(leads(events, now, from) && tells_end(events[from]) == ended) {
        lemma_next_leader_is_first(events, now, ended, from + 1, leader);
    }
}

/// Only a delivered group is marked: a cycle gets to the marking of a group
/// from the delivery of that group, on the reply that the channel took the
/// message, and in no other way.
pub proof fn lemma_mark_follows_delivery(
    state: ProcessState,
    reply: Reply,
    now: Timestamp,
    cycle: Cycle,
)
    requires
        process_next(state, reply, now) == Progress::<
            ProcessState,
            Result<(), RepositoryError>,
        >::Waiting(ProcessState::Mark(cycle)),
    ensures
        state == ProcessState::Mark(cycle) || (reply == Reply::Sent && state is Deliver
            && state->cycle == cycle),
{
}

} // verus!
