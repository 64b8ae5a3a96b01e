use sfg_bot::discord::messages::{format_game_ended, format_game_started, format_mention_response};

#[test]
fn test_format_game_started() {
    let msg = format_game_started("Catory", 157, "CLASSIC");
    assert!(msg.contains("🎮"));
    assert!(msg.contains("Catory"));
    assert!(msg.contains("CLASSIC"));
    assert!(msg.contains("Champion #157"));
}

#[test]
fn test_format_game_ended_win() {
    let msg = format_game_ended("Catory", true, 10, 5, 15, 1800);
    assert!(msg.contains("🏆"));
    assert!(msg.contains("Catory"));
    assert!(msg.contains("won"));
    assert!(msg.contains("10/5/15"));
    assert!(msg.contains("30m"));
}

#[test]
fn test_format_game_ended_loss() {
    let msg = format_game_ended("Catory", false, 3, 8, 5, 1500);
    assert!(msg.contains("💔"));
    assert!(msg.contains("lost"));
    assert!(msg.contains("3/8/5"));
    assert!(msg.contains("25m"));
}

#[test]
fn test_format_mention_response() {
    let msg = format_mention_response();
    assert_eq!(msg, "This feature is not implemented yet!");
}
