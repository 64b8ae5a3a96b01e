use sfg_bot::db::models::{NewNotificationEvent, NotificationEvent, Summoner, Timestamp};
use sfg_bot::exchange::{Reply, Request, Step};
use sfg_bot::notification::processor::{
    due, fetch_summoners, find_leader, group_events, ids_of, is_in_group, NotificationProcessor, GRACE_SECS,
};
use sfg_bot::{MemoryRepository, RepositoryError};

fn at(secs: i64) -> Timestamp {
    Timestamp { secs, nanos: 0 }
}

fn summoner(id: u128, name: &str) -> Summoner {
    Summoner {
        id,
        riot_puuid: format!("puuid-{}", name),
        game_name: name.to_string(),
        tag_line: "EUW".to_string(),
        region: "euw1".to_string(),
        created_at: at(0),
        updated_at: at(0),
    }
}

fn started(summoner_id: u128, game_id: i64) -> NewNotificationEvent {
    NewNotificationEvent {
        summoner_id,
        event_type: "GAME_STARTED".to_string(),
        game_id,
        match_id: None,
        champion_id: 1,
        champion_name: "Annie".to_string(),
        role: None,
        win: None,
        kills: None,
        deaths: None,
        assists: None,
        game_duration_secs: None,
        game_mode: "CLASSIC".to_string(),
        is_featured_mode: false,
        total_cs: None,
        total_gold: None,
        total_damage: None,
        enemy_champion_name: None,
        enemy_cs: None,
        enemy_gold: None,
        enemy_damage: None,
    }
}

fn ended(summoner_id: u128, game_id: i64, match_id: Option<&str>) -> NewNotificationEvent {
    NewNotificationEvent {
        event_type: "GAME_ENDED".to_string(),
        match_id: match_id.map(|m| m.to_string()),
        win: Some(true),
        ..started(summoner_id, game_id)
    }
}

/// What was sent: the kind, the players shown, the ids of the notifications.
type Sent = (&'static str, Vec<String>, Vec<u128>);

/// One cycle against the store, with a channel that takes or refuses the
/// messages as `delivers` says for each in turn.
fn cycle(store: &mut MemoryRepository, now: Timestamp, delivers: &mut dyn FnMut(&Sent) -> bool) -> (Vec<Sent>, Vec<Vec<u128>>) {
    let processor = NotificationProcessor::new(42, 5);
    let mut sent = Vec::new();
    let mut marked = Vec::new();
    let mut step = processor.start();
    loop {
        match step {
            Step::Done(outcome) => {
                outcome.unwrap();
                return (sent, marked);
            }
            Step::Ask(state, request) => {
                let reply = match &request {
                    Request::SendStartedSummary { summoners, events } | Request::SendEndedSummary { summoners, events } => {
                        let kind = if matches!(request, Request::SendStartedSummary { .. }) { "started" } else { "ended" };
                        let message: Sent = (
                            kind,
                            summoners.iter().map(|s| s.game_name.clone()).collect(),
                            events.iter().map(|e| e.id).collect(),
                        );
                        let taken = delivers(&message);
                        sent.push(message);
                        if taken {
                            Reply::Sent
                        } else {
                            Reply::SendFailed("channel unreachable".to_string())
                        }
                    }
                    other => {
                        if let Request::MarkNotificationsProcessed { event_ids } = other {
                            marked.push(event_ids.clone());
                        }
                        store.perform(other, now).unwrap()
                    }
                };
                step = processor.process_pending_events(state, reply, now);
            }
        }
    }
}

fn store_with_players() -> MemoryRepository {
    let mut store = MemoryRepository::new();
    store.summoners.push(summoner(1, "A"));
    store.summoners.push(summoner(2, "B"));
    store.summoners.push(summoner(3, "C"));
    store.summoners.push(summoner(4, "D"));
    store
}

fn pending_ids(store: &MemoryRepository) -> Vec<u128> {
    store.events.iter().filter(|e| !e.processed).map(|e| e.id).collect()
}

#[test]
fn events_of_one_game_are_delivered_together_once_they_are_due() {
    // Three players start the game S = 9000: A 40 s ago, B 35 s ago, C 5 s ago.
    let mut store = store_with_players();
    let now = at(1_000);
    let e1 = store.insert_notification_event(&started(1, 9000), at(960)).unwrap().id;
    let e2 = store.insert_notification_event(&started(2, 9000), at(965)).unwrap().id;
    let e3 = store.insert_notification_event(&started(3, 9000), at(995)).unwrap().id;

    let (sent, marked) = cycle(&mut store, now, &mut |_| true);
    assert_eq!(sent, vec![("started", vec!["A".to_string(), "B".to_string()], vec![e1, e2])]);
    assert_eq!(marked, vec![vec![e1, e2]]);
    assert_eq!(pending_ids(&store), vec![e3]);
    assert_eq!(store.events[0].processed_at, Some(now));

    // C is not due before 30 s have passed.
    let (sent, _) = cycle(&mut store, at(1_024), &mut |_| true);
    assert!(sent.is_empty());
    assert_eq!(pending_ids(&store), vec![e3]);

    let (sent, marked) = cycle(&mut store, at(1_025), &mut |_| true);
    assert_eq!(sent, vec![("started", vec!["C".to_string()], vec![e3])]);
    assert_eq!(marked, vec![vec![e3]]);
    assert!(pending_ids(&store).is_empty());

    // Nothing is delivered twice.
    let (sent, marked) = cycle(&mut store, at(2_000), &mut |_| true);
    assert!(sent.is_empty());
    assert!(marked.is_empty());
}

#[test]
fn group_that_was_not_delivered_is_tried_again() {
    let mut store = store_with_players();
    let e1 = store.insert_notification_event(&started(1, 9000), at(0)).unwrap().id;
    let e2 = store.insert_notification_event(&started(2, 9000), at(1)).unwrap().id;

    let (sent, marked) = cycle(&mut store, at(100), &mut |_| false);
    assert_eq!(sent.len(), 1);
    assert_eq!(sent[0].2, vec![e1, e2]);
    assert!(marked.is_empty());
    assert_eq!(pending_ids(&store), vec![e1, e2]);
    assert!(store.events.iter().all(|e| e.processed_at.is_none()));

    let (sent_again, marked) = cycle(&mut store, at(105), &mut |_| true);
    assert_eq!(sent_again, sent);
    assert_eq!(marked, vec![vec![e1, e2]]);
    assert!(pending_ids(&store).is_empty());
}

#[test]
fn failure_of_one_group_does_not_hold_back_the_others() {
    let mut store = store_with_players();
    let a = store.insert_notification_event(&started(1, 1), at(0)).unwrap().id;
    let b = store.insert_notification_event(&ended(2, 2, Some("EUW1_2")), at(0)).unwrap().id;
    let c = store.insert_notification_event(&started(3, 3), at(0)).unwrap().id;

    let mut count = 0;
    let (sent, marked) = cycle(&mut store, at(100), &mut |_| {
        count += 1;
        count != 1
    });
    // Started games come first, in the order of the queue, then ended ones.
    let order: Vec<(&str, Vec<u128>)> = sent.iter().map(|s| (s.0, s.2.clone())).collect();
    assert_eq!(order, vec![("started", vec![a]), ("started", vec![c]), ("ended", vec![b])]);
    assert_eq!(marked, vec![vec![c], vec![b]]);
    assert_eq!(pending_ids(&store), vec![a]);
}

#[test]
fn start_and_end_never_share_a_group() {
    let mut store = store_with_players();
    // The same game number, and a match id that reads like it.
    let s1 = store.insert_notification_event(&started(1, 77), at(0)).unwrap().id;
    let e1 = store.insert_notification_event(&ended(1, 77, Some("77")), at(0)).unwrap().id;
    let s2 = store.insert_notification_event(&started(2, 77), at(0)).unwrap().id;
    let e2 = store.insert_notification_event(&ended(2, 77, Some("77")), at(0)).unwrap().id;
    let e3 = store.insert_notification_event(&ended(3, 77, Some("78")), at(0)).unwrap().id;

    let (sent, _) = cycle(&mut store, at(100), &mut |_| true);
    let groups: Vec<(&str, Vec<u128>)> = sent.iter().map(|s| (s.0, s.2.clone())).collect();
    assert_eq!(groups, vec![("started", vec![s1, s2]), ("ended", vec![e1, e2]), ("ended", vec![e3])]);
    assert!(pending_ids(&store).is_empty());
}

#[test]
fn events_without_a_group_stay_in_the_queue() {
    let mut store = store_with_players();
    let no_match = store.insert_notification_event(&ended(1, 5, None), at(0)).unwrap().id;
    let mut odd = started(2, 5);
    odd.event_type = "GAME_PAUSED".to_string();
    let other_kind = store.insert_notification_event(&odd, at(0)).unwrap().id;
    let mut lower = started(3, 5);
    lower.event_type = "game_started".to_string();
    let lower_case = store.insert_notification_event(&lower, at(0)).unwrap().id;

    let (sent, marked) = cycle(&mut store, at(100), &mut |_| true);
    assert!(sent.is_empty());
    assert!(marked.is_empty());
    assert_eq!(pending_ids(&store), vec![no_match, other_kind, lower_case]);
}

#[test]
fn empty_queue_ends_the_cycle_at_once() {
    let mut store = store_with_players();
    let (sent, marked) = cycle(&mut store, at(100), &mut |_| true);
    assert!(sent.is_empty());
    assert!(marked.is_empty());
}

#[test]
fn players_are_shown_in_the_order_of_the_roster() {
    let mut store = store_with_players();
    store.insert_notification_event(&started(4, 1), at(0)).unwrap();
    store.insert_notification_event(&started(2, 1), at(0)).unwrap();
    store.insert_notification_event(&started(99, 1), at(0)).unwrap();
    let (sent, _) = cycle(&mut store, at(100), &mut |_| true);
    assert_eq!(sent.len(), 1);
    assert_eq!(sent[0].1, vec!["B".to_string(), "D".to_string()]);
    assert_eq!(sent[0].2.len(), 3);
}

#[test]
fn cycle_fails_where_the_queue_cannot_be_read() {
    let processor = NotificationProcessor::new(42, 5);
    let step = processor.start();
    let state = match step {
        Step::Ask(state, Request::GetPendingNotificationEvents) => state,
        other => panic!("unexpected step {:?}", other),
    };
    let step = processor.process_pending_events(
        state,
        Reply::RepositoryFailed(RepositoryError::Database("gone".to_string())),
        at(0),
    );
    assert!(matches!(step, Step::Done(Err(RepositoryError::Database(_)))));
}

#[test]
fn group_is_left_alone_where_players_or_mark_fail() {
    let mut store = store_with_players();
    let a = store.insert_notification_event(&started(1, 1), at(0)).unwrap().id;
    let b = store.insert_notification_event(&started(2, 2), at(0)).unwrap().id;
    let processor = NotificationProcessor::new(42, 5);
    let mut step = processor.start();
    let mut asked = Vec::new();
    let mut roster_calls = 0;
    loop {
        match step {
            Step::Done(outcome) => {
                outcome.unwrap();
                break;
            }
            Step::Ask(state, request) => {
                let reply = match &request {
                    Request::GetAllSummoners => {
                        roster_calls += 1;
                        if roster_calls == 1 {
                            Reply::RepositoryFailed(RepositoryError::Database("gone".to_string()))
                        } else {
                            store.perform(&request, at(100)).unwrap()
                        }
                    }
                    Request::SendStartedSummary { .. } => Reply::Sent,
                    Request::MarkNotificationsProcessed { .. } => {
                        Reply::RepositoryFailed(RepositoryError::Database("gone".to_string()))
                    }
                    other => store.perform(other, at(100)).unwrap(),
                };
                asked.push(match &request {
                    Request::GetPendingNotificationEvents => "pending",
                    Request::GetAllSummoners => "roster",
                    Request::SendStartedSummary { .. } => "send",
                    Request::MarkNotificationsProcessed { .. } => "mark",
                    _ => "other",
                });
                step = processor.process_pending_events(state, reply, at(100));
            }
        }
    }
    assert_eq!(asked, vec!["pending", "roster", "roster", "send", "mark"]);
    assert_eq!(pending_ids(&store), vec![a, b]);
}

#[test]
fn grace_window_is_thirty_seconds_to_the_nanosecond() {
    assert_eq!(GRACE_SECS, 30);
    let mut store = MemoryRepository::new();
    let created = Timestamp { secs: 100, nanos: 500 };
    let event = store.insert_notification_event(&started(1, 1), created).unwrap();
    assert!(!due(&event, &Timestamp { secs: 130, nanos: 499 }));
    assert!(due(&event, &Timestamp { secs: 130, nanos: 500 }));
    assert!(due(&event, &Timestamp { secs: 131, nanos: 0 }));
    assert!(!due(&event, &Timestamp { secs: 100, nanos: 500 }));
    // A clock that runs behind makes nothing due.
    assert!(!due(&event, &Timestamp { secs: 0, nanos: 0 }));
    assert!(!due(&event, &Timestamp { secs: i64::MIN, nanos: 0 }));
    assert!(due(&event, &Timestamp { secs: i64::MAX, nanos: u32::MAX }));
}

#[test]
fn due_event_stays_due() {
    let mut store = MemoryRepository::new();
    let event = store.insert_notification_event(&started(1, 1), at(-5)).unwrap();
    let mut last = false;
    for secs in -10..60 {
        let now = due(&event, &at(secs));
        assert!(now || !last);
        last = now;
    }
    assert!(last);
}

/// The events as a queue that holds them in this order, each made at its
/// time, whatever the times are.
fn queue(events: Vec<(NewNotificationEvent, i64)>) -> Vec<NotificationEvent> {
    let mut store = MemoryRepository::new();
    let mut times = Vec::new();
    for (event, created) in events {
        store.insert_notification_event(&event, at(0)).unwrap();
        times.push(created);
    }
    let mut queued = store.events;
    for (event, created) in queued.iter_mut().zip(times) {
        event.created_at = at(created);
    }
    queued
}

#[test]
fn leaders_and_groups_of_a_queue() {
    let events = queue(vec![
        (ended(1, 10, Some("EUW1_10")), 0),
        (started(1, 11), 0),
        (started(2, 11), 90),
        (ended(2, 10, Some("EUW1_10")), 0),
        (started(3, 12), 0),
        (started(4, 11), 0),
    ]);
    let now = at(100);
    assert_eq!(find_leader(&events, &now, false, 0), Some(1));
    assert_eq!(find_leader(&events, &now, false, 2), Some(4));
    assert_eq!(find_leader(&events, &now, false, 5), None);
    assert_eq!(find_leader(&events, &now, true, 0), Some(0));
    assert_eq!(find_leader(&events, &now, true, 1), None);
    assert_eq!(find_leader(&events, &now, true, 99), None);

    assert_eq!(ids_of(&group_events(&events, &now, 1)), vec![2, 6]);
    assert_eq!(ids_of(&group_events(&events, &now, 0)), vec![1, 4]);
    assert_eq!(ids_of(&group_events(&events, &now, 4)), vec![5]);
    assert!(group_events(&events, &now, 6).is_empty());
    // The third event is not due: it leads no group and is in none, though
    // the group of its game is there.
    assert_eq!(ids_of(&group_events(&events, &now, 2)), vec![2, 6]);
    assert!(!is_in_group(&events[2], &events[1], &now));
    assert!(is_in_group(&events[5], &events[1], &now));
    assert!(!is_in_group(&events[0], &events[1], &now));

    let roster = vec![summoner(4, "D"), summoner(9, "Z"), summoner(1, "A")];
    let shown: Vec<u128> = fetch_summoners(&roster, &group_events(&events, &now, 1)).iter().map(|s| s.id).collect();
    assert_eq!(shown, vec![4, 1]);
}

#[test]
fn cycle_at_the_current_time_delivers_what_is_due_by_it() {
    let mut store = store_with_players();
    let old = store.insert_notification_event(&started(1, 1), at(1_000)).unwrap().id;
    let far_off = Timestamp { secs: Timestamp::now().secs + 3_600, nanos: 0 };
    let young = store.insert_notification_event(&started(2, 2), far_off).unwrap().id;
    let processor = NotificationProcessor::new(42, 5);
    let mut step = processor.start();
    let mut sent = Vec::new();
    loop {
        match step {
            Step::Done(outcome) => {
                outcome.unwrap();
                break;
            }
            Step::Ask(state, request) => {
                let reply = match &request {
                    Request::SendStartedSummary { events, .. } => {
                        sent.push(events.iter().map(|e| e.id).collect::<Vec<u128>>());
                        Reply::Sent
                    }
                    other => store.perform(other, at(2_000)).unwrap(),
                };
                step = processor.process_pending_events_now(state, reply);
            }
        }
    }
    assert_eq!(sent, vec![vec![old]]);
    assert_eq!(pending_ids(&store), vec![young]);
    assert_eq!((processor.channel_id, processor.interval_secs), (42, 5));
}
