//! The plain messages about one player.

use crate::text::{decimal, push_decimal};
use vstd::prelude::*;

verus! {

/// The message that a player started a game.
pub open spec fn game_started_text(summoner_name: Seq<char>, champion_id: i32, game_mode: Seq<char>)
    -> Seq<char> {
    "🎮 "@ + summoner_name + " started a "@ + game_mode + " game as Champion #"@ + decimal(
        champion_id as int,
    ) + "!"@
}

/// The message that a player started a game.
pub fn format_game_started(summoner_name: &str, champion_id: i32, game_mode: &str) -> (message:
    String)
    ensures
        message@ == game_started_text(summoner_name@, champion_id, game_mode@),
{
    let mut message = String::from_str("🎮 ");
    message.append(summoner_name);
    message.append(" started a ");
    message.append(game_mode);
    message.append(" game as Champion #");
    push_decimal(&mut message, champion_id as i64);
    message.append("!");
    message
}

/// The whole minutes in a number of seconds, rounded towards nought.
pub open spec fn whole_minutes(secs: int) -> int {
    if secs >= 0 {
        secs / 60
    } else {
        -((-secs) / 60)
    }
}

/// The message that a player's game ended: the outcome, the score, and the
/// duration in whole minutes.
pub open spec fn game_ended_text(
    summoner_name: Seq<char>,
    win: bool,
    kills: i32,
    deaths: i32,
    assists: i32,
    duration_secs: i32,
) -> Seq<char> {
    (if win {
        "🏆"@
    } else {
        "💔"@
    }) + " "@ + summoner_name + " "@ + (if win {
        "won"@
    } else {
        "lost"@
    }) + "! KDA: "@ + decimal(kills as int) + "/"@ + decimal(deaths as int) + "/"@ + decimal(
        assists as int,
    ) + " | Duration: "@ + decimal(whole_minutes(duration_secs as int)) + "m"@
}

/// The message that a player's game ended.
pub fn format_game_ended(
    summoner_name: &str,
    win: bool,
    kills: i32,
    deaths: i32,
    assists: i32,
    duration_secs: i32,
) -> (message: String)
    ensures
        message@ == game_ended_text(summoner_name@, win, kills, deaths, assists, duration_secs),
{
    let minutes: i64 = if duration_secs >= 0 {
        (duration_secs / 60) as i64
    } else {
        -((-(duration_secs as i64)) / 60)
    };
    let mut message = String::from_str(
        if win {
            "🏆"
        } else {
            "💔"
        },
    );
    message.append(" ");
    message.append(summoner_name);
    message.append(" ");
    message.append(
        if win {
            "won"
        } else {
            "lost"
        },
    );
    message.append("! KDA: ");
    push_decimal(&mut message, kills as i64);
    message.append("/");
    push_decimal(&mut message, deaths as i64);
    message.append("/");
    push_decimal(&mut message, assists as i64);
    message.append(" | Duration: ");
    push_decimal(&mut message, minutes);
    message.append("m");
    message
}

/// The answer to a message that mentions the bot.
pub fn format_mention_response() -> (message: String)
    ensures
        message@ == "This feature is not implemented yet!"@,
{
    String::from_str("This feature is not implemented yet!")
}

} // verus!
