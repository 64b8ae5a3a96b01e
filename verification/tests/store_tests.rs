use sfg_bot::db::models::{Champion, NewActiveGame, NewMatchResult, NewNotificationEvent, Summoner, Timestamp};
use sfg_bot::exchange::{Reply, Request};
use sfg_bot::riot::client::PlatformRoute;
use sfg_bot::MemoryRepository;

fn at(secs: i64) -> Timestamp {
    Timestamp { secs, nanos: 0 }
}

fn new_result(summoner_id: u128, match_id: &str) -> NewMatchResult {
    NewMatchResult {
        summoner_id,
        match_id: match_id.to_string(),
        game_id: 12,
        win: true,
        kills: 1,
        deaths: 2,
        assists: 3,
        champion_id: 4,
        game_duration_secs: 600,
        game_mode: "ARAM".to_string(),
        role: "".to_string(),
        finished_at: at(5),
        total_cs: 10,
        total_gold: 20,
        total_damage: 30,
        enemy_champion_name: None,
        enemy_cs: None,
        enemy_gold: None,
        enemy_damage: None,
    }
}

fn new_event(summoner_id: u128, kind: &str) -> NewNotificationEvent {
    NewNotificationEvent {
        summoner_id,
        event_type: kind.to_string(),
        game_id: 1,
        match_id: None,
        champion_id: 1,
        champion_name: "Annie".to_string(),
        role: None,
        win: None,
        kills: None,
        deaths: None,
        assists: None,
        game_duration_secs: None,
        game_mode: "CLASSIC".to_string(),
        is_featured_mode: false,
        total_cs: None,
        total_gold: None,
        total_damage: None,
        enemy_champion_name: None,
        enemy_cs: None,
        enemy_gold: None,
        enemy_damage: None,
    }
}

#[test]
fn same_result_inserted_twice_is_stored_once() {
    let mut store = MemoryRepository::new();
    let first = store.insert_match_result(&new_result(1, "EUW1_12"), at(10));
    assert!(matches!(first, Ok(Some(_))));
    let second = store.insert_match_result(&new_result(1, "EUW1_12"), at(11));
    assert!(matches!(second, Ok(None)));
    assert_eq!(store.match_history.len(), 1);
    assert_eq!(store.match_history[0].created_at, at(10));
    // Through the request, too: the second insert is no failure.
    assert!(matches!(
        store.perform(&Request::InsertMatchResult(new_result(1, "EUW1_12")), at(12)),
        Some(Reply::Written)
    ));
    assert_eq!(store.match_history.len(), 1);
}

#[test]
fn results_of_other_players_and_matches_are_kept_apart() {
    let mut store = MemoryRepository::new();
    store.insert_match_result(&new_result(1, "EUW1_12"), at(10)).unwrap();
    store.insert_match_result(&new_result(2, "EUW1_12"), at(10)).unwrap();
    store.insert_match_result(&new_result(1, "EUW1_13"), at(10)).unwrap();
    assert_eq!(store.match_history.len(), 3);
    assert!(store.get_match_history_by_match_id(1, "EUW1_12").is_some());
    assert!(store.get_match_history_by_match_id(2, "EUW1_13").is_none());
    assert_eq!(store.get_match_history_by_match_id(2, "EUW1_12").unwrap().summoner_id, 2);
    let ids: Vec<u128> = store.match_history.iter().map(|r| r.id).collect();
    assert_eq!(ids, vec![1, 2, 3]);
}

#[test]
fn active_games_are_added_found_and_removed() {
    let mut store = MemoryRepository::new();
    let game = |summoner_id: u128, game_id: i64| NewActiveGame {
        summoner_id,
        game_id,
        champion_id: 9,
        game_mode: "CLASSIC".to_string(),
        game_start_time: at(3),
    };
    let added = store.insert_active_game(&game(1, 100), at(4)).unwrap();
    assert_eq!(added.id, 1);
    assert_eq!(added.created_at, at(4));
    store.insert_active_game(&game(2, 100), at(4)).unwrap();
    store.insert_active_game(&game(1, 200), at(4)).unwrap();
    let of_one: Vec<i64> = store.get_active_games_for_summoner(1).iter().map(|g| g.game_id).collect();
    assert_eq!(of_one, vec![100, 200]);
    assert!(store.get_active_games_for_summoner(3).is_empty());

    store.delete_active_game_by_summoner_and_game(1, 100);
    let left: Vec<(u128, i64)> = store.active_games.iter().map(|g| (g.summoner_id, g.game_id)).collect();
    assert_eq!(left, vec![(2, 100), (1, 200)]);
    // Removing what is not there changes nothing.
    store.delete_active_game_by_summoner_and_game(1, 100);
    assert_eq!(store.active_games.len(), 2);
}

#[test]
fn notifications_are_queued_pending_and_marked() {
    let mut store = MemoryRepository::new();
    let a = store.insert_notification_event(&new_event(1, "GAME_STARTED"), at(1)).unwrap();
    let b = store.insert_notification_event(&new_event(2, "GAME_STARTED"), at(2)).unwrap();
    let c = store.insert_notification_event(&new_event(3, "GAME_ENDED"), at(3)).unwrap();
    assert!(!a.processed && a.processed_at.is_none() && a.queue_id.is_none());
    assert_eq!(store.get_pending_notification_events().len(), 3);

    store.mark_notifications_processed(&vec![a.id, c.id, 999], at(9));
    let pending: Vec<u128> = store.get_pending_notification_events().iter().map(|e| e.id).collect();
    assert_eq!(pending, vec![b.id]);
    assert!(store.events[0].processed);
    assert_eq!(store.events[0].processed_at, Some(at(9)));
    assert!(!store.events[1].processed);
    assert_eq!(store.events[1].processed_at, None);
    assert_eq!(store.events.len(), 3);
    store.mark_notifications_processed(&vec![], at(10));
    assert_eq!(store.get_pending_notification_events().len(), 1);
}

#[test]
fn champion_is_found_by_its_number() {
    let mut store = MemoryRepository::new();
    store.champions.push(Champion { id: 1, champion_id: 1, champion_name: "Annie".to_string(), created_at: at(0) });
    store.champions.push(Champion { id: 2, champion_id: 103, champion_name: "Ahri".to_string(), created_at: at(0) });
    assert_eq!(store.get_champion_by_id(103).unwrap().champion_name, "Ahri");
    assert!(store.get_champion_by_id(104).is_none());
}

#[test]
fn store_answers_its_own_requests_only() {
    let mut store = MemoryRepository::new();
    store.summoners.push(Summoner {
        id: 1,
        riot_puuid: "p".to_string(),
        game_name: "Ann".to_string(),
        tag_line: "EUW".to_string(),
        region: "euw1".to_string(),
        created_at: at(0),
        updated_at: at(0),
    });
    match store.perform(&Request::GetAllSummoners, at(0)) {
        Some(Reply::Summoners(all)) => assert_eq!(all.len(), 1),
        other => panic!("unexpected answer {:?}", other),
    }
    assert!(store
        .perform(&Request::GetActiveGame { puuid: "p".to_string(), platform: PlatformRoute::EUW1 }, at(0))
        .is_none());
    assert!(store
        .perform(&Request::SendStartedSummary { summoners: vec![], events: vec![] }, at(0))
        .is_none());
    assert!(matches!(store.perform(&Request::GetChampionById { champion_id: 1 }, at(0)), Some(Reply::Champion(None))));
}

#[test]
fn store_that_is_out_of_ids_fails_and_keeps_its_records() {
    let mut store = MemoryRepository::new();
    store.next_id = u128::MAX;
    assert!(store.insert_match_result(&new_result(1, "EUW1_12"), at(10)).is_err());
    assert!(store.insert_notification_event(&new_event(1, "GAME_STARTED"), at(1)).is_err());
    assert!(matches!(
        store.perform(&Request::InsertNotificationEvent(new_event(1, "GAME_STARTED")), at(1)),
        Some(Reply::RepositoryFailed(_))
    ));
    assert!(store.match_history.is_empty());
    assert!(store.events.is_empty());
}

#[test]
fn queue_stands_oldest_first_though_the_clock_goes_back() {
    let mut store = MemoryRepository::new();
    let a = store.insert_notification_event(&new_event(1, "GAME_STARTED"), at(10)).unwrap().id;
    let b = store.insert_notification_event(&new_event(2, "GAME_STARTED"), at(20)).unwrap().id;
    let c = store.insert_notification_event(&new_event(3, "GAME_STARTED"), at(15)).unwrap().id;
    let d = store.insert_notification_event(&new_event(4, "GAME_STARTED"), at(20)).unwrap().id;
    let e = store.insert_notification_event(&new_event(5, "GAME_STARTED"), at(5)).unwrap().id;
    let order: Vec<u128> = store.get_pending_notification_events().iter().map(|e| e.id).collect();
    assert_eq!(order, vec![e, a, c, b, d]);
    store.mark_notifications_processed(&vec![c], at(30));
    let order: Vec<u128> = store.get_pending_notification_events().iter().map(|e| e.id).collect();
    assert_eq!(order, vec![e, a, b, d]);
    let times: Vec<i64> = store.events.iter().map(|e| e.created_at.secs).collect();
    assert_eq!(times, vec![5, 10, 15, 20, 20]);
}
