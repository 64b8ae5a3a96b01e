//! What a grouped notification shows.

use crate::db::models::{NotificationEvent, Summoner};
use crate::text::{decimal, push_decimal};
use serenity::builder::CreateEmbed;
use vstd::prelude::*;

verus! {

/// The embed builder of the chat library. What it has been given is read
/// through `embed_content`.
#[verifier::external_type_specification]
#[verifier::external_body]
pub struct ExCreateEmbed(serenity::builder::CreateEmbed);

/// One field of an embed: its name, its value, and whether it is shown
/// inline.
pub struct FieldContent {
    pub name: Seq<char>,
    pub value: Seq<char>,
    pub inline: bool,
}

/// What an embed has been given: the values that were set, and the fields in
/// the order in which they were added.
pub struct EmbedContent {
    pub title: Option<Seq<char>>,
    pub description: Option<Seq<char>>,
    pub colour: Option<(u8, u8, u8)>,
    pub footer: Option<Seq<char>>,
    pub fields: Seq<FieldContent>,
}

/// What an embed has been given so far, but for its timestamp.
pub uninterp spec fn embed_content(embed: CreateEmbed) -> EmbedContent;

/// `CreateEmbed::new`: an embed that has been given nothing.
#[verifier::external_body]
fn embed_new() -> (embed: CreateEmbed)
    ensures
        embed_content(embed) == (EmbedContent {
            title: None,
            description: None,
            colour: None,
            footer: None,
            fields: Seq::empty(),
        }),
{
    CreateEmbed::new()
}

/// `CreateEmbed::title`: sets the title and leaves the rest as it is.
#[verifier::external_body]
fn embed_title(embed: CreateEmbed, title: &str) -> (out: CreateEmbed)
    ensures
        embed_content(out) == (EmbedContent { title: Some(title@), ..embed_content(embed) }),
{
    embed.title(title)
}

/// `CreateEmbed::description`: sets the description and leaves the rest as
/// it is.
#[verifier::external_body]
fn embed_description(embed: CreateEmbed, description: &str) -> (out: CreateEmbed)
    ensures
        embed_content(out) == (EmbedContent {
            description: Some(description@),
            ..embed_content(embed)
        }),
{
    embed.description(description)
}

/// `CreateEmbed::colour`, with the colour that `Colour::from_rgb` makes of
/// the three components: sets the colour and leaves the rest as it is.
#[verifier::external_body]
fn embed_colour(embed: CreateEmbed, red: u8, green: u8, blue: u8) -> (out: CreateEmbed)
    ensures
        embed_content(out) == (EmbedContent {
            colour: Some((red, green, blue)),
            ..embed_content(embed)
        }),
{
    embed.colour(serenity::model::Colour::from_rgb(red, green, blue))
}

/// `CreateEmbed::footer`, with the footer that `CreateEmbedFooter::new`
/// makes of the text: sets the footer and leaves the rest as it is.
#[verifier::external_body]
fn embed_footer(embed: CreateEmbed, text: &str) -> (out: CreateEmbed)
    ensures
        embed_content(out) == (EmbedContent { footer: Some(text@), ..embed_content(embed) }),
{
    embed.footer(serenity::builder::CreateEmbedFooter::new(text))
}

/// `CreateEmbed::timestamp`, with the time that `Timestamp::now` reads:
/// stamps the embed with the current time and leaves the rest as it is.
#[verifier::external_body]
fn embed_timestamp_now(embed: CreateEmbed) -> (out: CreateEmbed)
    ensures
        embed_content(out) == embed_content(embed),
{
    embed.timestamp(serenity::model::Timestamp::now())
}

/// `CreateEmbed::field`: adds a field behind those that are there and leaves
/// the rest as it is.
#[verifier::external_body]
fn embed_field(embed: CreateEmbed, name: &str, value: &str, inline: bool) -> (out: CreateEmbed)
    ensures
        embed_content(out) == (EmbedContent {
            fields: embed_content(embed).fields.push(
                FieldContent { name: name@, value: value@, inline },
            ),
            ..embed_content(embed)
        }),
{
    embed.field(name, value, inline)
}

/// The name a queue is shown under: the name of a queue that is known, the
/// number of another one, `Unknown` where there is none.
pub open spec fn queue_type_text(queue_id: Option<i32>) -> Seq<char> {
    match queue_id {
        Some(id) => if id == 420 {
            "Ranked Solo/Duo"@
        } else if id == 440 {
            "Ranked Flex"@
        } else if id == 400 {
            "Draft Pick"@
        } else if id == 430 {
            "Blind Pick"@
        } else if id == 450 {
            "ARAM"@
        } else if id == 490 {
            "Quickplay"@
        } else if id == 1700 {
            "Arena"@
        } else {
            "Queue "@ + decimal(id as int)
        },
        None => "Unknown"@,
    }
}

/// The name a queue is shown under.
pub fn get_queue_type_name(queue_id: Option<i32>) -> (name: String)
    ensures
        name@ == queue_type_text(queue_id),
{
    match queue_id {
        Some(id) => {
            if id == 420 {
                String::from_str("Ranked Solo/Duo")
            } else if id == 440 {
                String::from_str("Ranked Flex")
            } else if id == 400 {
                String::from_str("Draft Pick")
            } else if id == 430 {
                String::from_str("Blind Pick")
            } else if id == 450 {
                String::from_str("ARAM")
            } else if id == 490 {
                String::from_str("Quickplay")
            } else if id == 1700 {
                String::from_str("Arena")
            } else {
                let mut name = String::from_str("Queue ");
                push_decimal(&mut name, id as i64);
                name
            }
        },
        None => String::from_str("Unknown"),
    }
}

/// The items one after the other, with `separator` between each two.
pub open spec fn joined(items: Seq<String>, separator: Seq<char>) -> Seq<char>
    decreases items.len(),
{
    if items.len() == 0 {
        Seq::empty()
    } else if items.len() == 1 {
        items[0]@
    } else {
        joined(items.drop_last(), separator) + separator + items.last()@
    }
}

/// A list as it is read out: nothing, one item, `a and b`, or
/// `a, b, and c`.
pub open spec fn list_text(items: Seq<String>) -> Seq<char> {
    if items.len() == 0 {
        Seq::empty()
    } else if items.len() == 1 {
        items[0]@
    } else if items.len() == 2 {
        items[0]@ + " and "@ + items[1]@
    } else {
        joined(items.drop_last(), ", "@) + ", and "@ + items.last()@
    }
}

/// A list as it is read out.
pub fn format_list(items: &Vec<String>) -> (text: String)
    ensures
        text@ == list_text(items@),
{
    let n = items.len();
    if n == 0 {
        String::new()
    } else if n == 1 {
        items[0].clone()
    } else if n == 2 {
        let mut text = items[0].clone();
        text.append(" and ");
        text.append(items[1].as_str());
        text
    } else {
        let mut text = items[0].clone();
        let mut i: usize = 1;
        while i < n - 1
            invariant
                n == items@.len(),
                n >= 3,
                1 <= i <= n - 1,
                text@ == joined(items@.take(i as int), ", "@),
            decreases n - i,
        {
            text.append(", ");
            text.append(items[i].as_str());
            proof {
                let longer = items@.take(i + 1);
                assert(longer.drop_last() == items@.take(i as int));
            }
            i = i + 1;
        }
        text.append(", and ");
        text.append(items[n - 1].as_str());
        text
    }
}

/// The game names of the players, in their order.
pub open spec fn game_names(summoners: Seq<Summoner>) -> Seq<String> {
    summoners.map_values(|s: Summoner| s.game_name)
}

fn collect_game_names(summoners: &Vec<Summoner>) -> (names: Vec<String>)
    ensures
        names@ == game_names(summoners@),
{
    let mut names: Vec<String> = Vec::new();
    let mut i: usize = 0;
    while i < summoners.len()
        invariant
            i <= summoners@.len(),
            names@ == game_names(summoners@.take(i as int)),
        decreases summoners@.len() - i,
    {
        names.push(summoners[i].game_name.clone());
        i = i + 1;
    }
    names
}

/// The champion shown for a player: the name in the last entry of
/// `champions` that is the player's, `Unknown` where no entry is.
pub open spec fn champion_shown(champions: Seq<(u128, String, String)>, summoner_id: u128) -> Seq<
    char,
>
    decreases champions.len(),
{
    if champions.len() == 0 {
        "Unknown"@
    } else if champions.last().0 == summoner_id {
        champions.last().1@
    } else {
        champion_shown(champions.drop_last(), summoner_id)
    }
}

fn champion_for(champions: &Vec<(u128, String, String)>, summoner_id: u128) -> (name: String)
    ensures
        name@ == champion_shown(champions@, summoner_id),
{
    let mut i: usize = champions.len();
    assert(champions@.take(i as int) == champions@);
    while i > 0
        invariant
            i <= champions@.len(),
            champion_shown(champions@, summoner_id) == champion_shown(
                champions@.take(i as int),
                summoner_id,
            ),
        decreases i,
    {
        i = i - 1;
        proof {
            let upto = champions@.take(i + 1);
            assert(upto.drop_last() == champions@.take(i as int));
        }
        if champions[i].0 == summoner_id {
            return champions[i].1.clone();
        }
    }
    String::from_str("Unknown")
}

/// The field that shows a player in a started game: the player's name and
/// tag line, and the champion.
pub open spec fn started_field(summoner: Summoner, champions: Seq<(u128, String, String)>)
    -> FieldContent {
    FieldContent {
        name: summoner.game_name@ + "#"@ + summoner.tag_line@,
        value: champion_shown(champions, summoner.id),
        inline: true,
    }
}

/// What the notification of a started game shows: who started a game of
/// which mode and queue, and for each player the champion. The third part of
/// an entry of `champions` is not shown.
pub open spec fn started_content(
    summoners: Seq<Summoner>,
    champions: Seq<(u128, String, String)>,
    game_mode: Seq<char>,
    queue_id: Option<i32>,
) -> EmbedContent {
    EmbedContent {
        title: Some("🎮 Game Started!"@),
        description: Some(
            list_text(game_names(summoners)) + " started a "@ + game_mode + " game ("@
                + queue_type_text(queue_id) + ")"@,
        ),
        colour: Some((52u8, 152u8, 219u8)),
        footer: Some("League of Legends · "@ + game_mode + " · "@ + queue_type_text(queue_id)),
        fields: Seq::new(summoners.len(), |i: int| started_field(summoners[i], champions)),
    }
}

/// The notification that a group of players started a game.
pub fn format_grouped_game_started(
    summoners: &Vec<Summoner>,
    champions: &Vec<(u128, String, String)>,
    game_mode: &str,
    queue_id: Option<i32>,
) -> (embed: CreateEmbed)
    ensures
        embed_content(embed) == started_content(summoners@, champions@, game_mode@, queue_id),
{
    let names = collect_game_names(summoners);
    let queue_type = get_queue_type_name(queue_id);

    let mut description = format_list(&names);
    description.append(" started a ");
    description.append(game_mode);
    description.append(" game (");
    description.append(queue_type.as_str());
    description.append(")");

    let mut footer_text = String::from_str("League of Legends · ");
    footer_text.append(game_mode);
    footer_text.append(" · ");
    footer_text.append(queue_type.as_str());

    let mut embed = embed_new();
    embed = embed_title(embed, "🎮 Game Started!");
    embed = embed_description(embed, description.as_str());
    embed = embed_colour(embed, 52, 152, 219);
    embed = embed_footer(embed, footer_text.as_str());
    embed = embed_timestamp_now(embed);

    let ghost wanted = started_content(summoners@, champions@, game_mode@, queue_id);
    assert(wanted.fields.take(0) == Seq::<FieldContent>::empty());
    let mut i: usize = 0;
    while i < summoners.len()
        invariant
            i <= summoners@.len(),
            wanted == started_content(summoners@, champions@, game_mode@, queue_id),
            embed_content(embed) == (EmbedContent {
                fields: wanted.fields.take(i as int),
                ..wanted
            }),
        decreases summoners@.len() - i,
    {
        let summoner = &summoners[i];
        let mut name = summoner.game_name.clone();
        name.append("#");
        name.append(summoner.tag_line.as_str());
        let champion = champion_for(champions, summoner.id);
        embed = embed_field(embed, name.as_str(), champion.as_str(), true);
        proof {
            assert(wanted.fields.take(i + 1) == wanted.fields.take(i as int).push(
                started_field(summoners@[i as int], champions@),
            ));
        }
        i = i + 1;
    }
    assert(wanted.fields.take(i as int) == wanted.fields);
    embed
}

/// The figures of one event as text, for the two lines that show them. They
/// are rendered outside this library, which has no arithmetic for them.
#[derive(Debug)]
pub struct EventLines {
    /// The player's own figures.
    pub stats: String,
    /// The figures of the player's opponent.
    pub enemy_stats: String,
}

/// Whether the event reports a win. An event without an outcome reports
/// none.
pub open spec fn is_win(event: NotificationEvent) -> bool {
    event.win == Some(true)
}

/// How many of the events report a win.
pub open spec fn wins(events: Seq<NotificationEvent>) -> nat
    decreases events.len(),
{
    if events.len() == 0 {
        0
    } else {
        wins(events.drop_last()) + if is_win(events.last()) {
            1nat
        } else {
            0nat
        }
    }
}

/// The comparison with the opponent: the opponent's champion and figures,
/// where the champion and all three figures are known.
pub open spec fn enemy_comparison_text(
    enemy_champion: Option<Seq<char>>,
    enemy_cs: Option<i32>,
    enemy_gold: Option<i32>,
    enemy_damage: Option<i32>,
    stats_line: Seq<char>,
) -> Seq<char> {
    if enemy_champion is Some && enemy_cs is Some && enemy_gold is Some && enemy_damage is Some {
        enemy_champion->0 + " ("@ + stats_line + ")"@
    } else {
        "⚔️ vs Unknown (no role data)"@
    }
}

/// The comparison with the opponent. `stats_line` shows the opponent's
/// figures.
pub fn format_enemy_comparison(
    enemy_champion: Option<&str>,
    enemy_cs: Option<i32>,
    enemy_gold: Option<i32>,
    enemy_damage: Option<i32>,
    stats_line: &str,
) -> (text: String)
    ensures
        text@ == enemy_comparison_text(
            match enemy_champion {
                Some(champion) => Some(champion@),
                None => None,
            },
            enemy_cs,
            enemy_gold,
            enemy_damage,
            stats_line@,
        ),
{
    match (enemy_champion, enemy_cs, enemy_gold, enemy_damage) {
        (Some(champion), Some(_), Some(_), Some(_)) => {
            let mut text = String::from_str(champion);
            text.append(" (");
            text.append(stats_line);
            text.append(")");
            text
        },
        _ => String::from_str("⚔️ vs Unknown (no role data)"),
    }
}

/// The value of an optional figure, nought where there is none.
pub open spec fn figure(value: Option<i32>) -> int {
    match value {
        Some(v) => v as int,
        None => 0,
    }
}

/// The lines of the event at `index`; an event past the end of `lines` has
/// empty ones.
pub open spec fn lines_at(lines: Seq<EventLines>, index: int) -> (Seq<char>, Seq<char>) {
    if 0 <= index < lines.len() {
        (lines[index].stats@, lines[index].enemy_stats@)
    } else {
        (Seq::empty(), Seq::empty())
    }
}

/// The three fields that show a player in an ended game: the player with the
/// outcome, champion, role and score; the player's figures; and the
/// comparison with the opponent.
pub open spec fn ended_fields_of(
    summoner: Summoner,
    event: NotificationEvent,
    lines: (Seq<char>, Seq<char>),
) -> Seq<FieldContent> {
    seq![
        FieldContent {
            name: (if is_win(event) {
                "🏆"@
            } else {
                "💔"@
            }) + " "@ + summoner.game_name@,
            value: "💎 "@ + event.champion_name@ + " · "@ + (match event.role {
                Some(role) => role@,
                None => "Unknown"@,
            }) + " · "@ + (if is_win(event) {
                "W"@
            } else {
                "L"@
            }) + " "@ + decimal(figure(event.kills)) + "/"@ + decimal(figure(event.deaths)) + "/"@
                + decimal(figure(event.assists)),
            inline: true,
        },
        FieldContent { name: "📊 Stats"@, value: lines.0, inline: true },
        FieldContent {
            name: "⚔️ vs"@,
            value: enemy_comparison_text(
                match event.enemy_champion_name {
                    Some(name) => Some(name@),
                    None => None,
                },
                event.enemy_cs,
                event.enemy_gold,
                event.enemy_damage,
                lines.1,
            ),
            inline: true,
        },
    ]
}

/// The place of the event that is shown for a player: the last of the
/// player's events.
pub open spec fn event_shown(events: Seq<NotificationEvent>, summoner_id: u128) -> Option<int>
    decreases events.len(),
{
    if events.len() == 0 {
        None
    } else if events.last().summoner_id == summoner_id {
        Some(events.len() - 1)
    } else {
        event_shown(events.drop_last(), summoner_id)
    }
}

/// The fields of an ended game: those of each player who has an event, in
/// the players' order.
pub open spec fn ended_fields(
    summoners: Seq<Summoner>,
    events: Seq<NotificationEvent>,
    lines: Seq<EventLines>,
) -> Seq<FieldContent>
    decreases summoners.len(),
{
    if summoners.len() == 0 {
        Seq::empty()
    } else {
        ended_fields(summoners.drop_last(), events, lines) + match event_shown(
            events,
            summoners.last().id,
        ) {
            Some(at) => ended_fields_of(summoners.last(), events[at], lines_at(lines, at)),
            None => Seq::empty(),
        }
    }
}

/// Whether the first event, if there is one, is of a featured mode.
pub open spec fn is_featured(events: Seq<NotificationEvent>) -> bool {
    events.len() > 0 && events[0].is_featured_mode
}

/// The queue of the first event, if there is an event and it has one.
pub open spec fn first_queue(events: Seq<NotificationEvent>) -> Option<i32> {
    if events.len() > 0 {
        events[0].queue_id
    } else {
        None
    }
}

/// What the notification of an ended game shows.
///
/// The title says that the game was won where more events report a win than
/// do not. The colour is green where every event reports a win, red where
/// none does, and yellow otherwise. Mode, queue and the mark of a featured
/// mode are those of the first event.
pub open spec fn ended_content(
    summoners: Seq<Summoner>,
    events: Seq<NotificationEvent>,
    game_mode: Seq<char>,
    lines: Seq<EventLines>,
) -> EmbedContent {
    let won = wins(events);
    let lost = events.len() - won;
    EmbedContent {
        title: Some(
            if won > lost {
                "Game Won!"@
            } else {
                "Game Lost!"@
            },
        ),
        description: Some(
            if is_featured(events) {
                game_mode + " featured mode ended! Match history may take a bit to update."@
            } else {
                game_mode + " game ended! Check your stats."@
            },
        ),
        colour: Some(
            if lost == 0 {
                (46u8, 204u8, 113u8)
            } else if won == 0 {
                (231u8, 76u8, 60u8)
            } else {
                (241u8, 196u8, 15u8)
            },
        ),
        footer: Some(
            match first_queue(events) {
                Some(queue) => if is_featured(events) {
                    "League of Legends · "@ + game_mode + " · "@ + queue_type_text(Some(queue))
                        + " (Featured)"@
                } else {
                    "League of Legends · "@ + game_mode + " · "@ + queue_type_text(Some(queue))
                },
                None => if is_featured(events) {
                    "League of Legends · "@ + game_mode + " (Featured)"@
                } else {
                    "League of Legends · "@ + game_mode
                },
            },
        ),
        fields: ended_fields(summoners, events, lines),
    }
}

fn count_wins(events: &Vec<NotificationEvent>) -> (won: usize)
    ensures
        won == wins(events@),
        won <= events@.len(),
{
    let mut won: usize = 0;
    let mut i: usize = 0;
    while i < events.len()
        invariant
            i <= events@.len(),
            won == wins(events@.take(i as int)),
            won <= i,
        decreases events@.len() - i,
    {
        proof {
            let upto = events@.take(i + 1);
            assert(upto.drop_last() == events@.take(i as int));
        }
        match events[i].win {
            Some(true) => {
                won = won + 1;
            },
            _ => {},
        }
        i = i + 1;
    }
    assert(events@.take(i as int) == events@);
    won
}

fn find_event(events: &Vec<NotificationEvent>, summoner_id: u128) -> (at: Option<usize>)
    ensures
        match at {
            Some(i) => event_shown(events@, summoner_id) == Some(i as int) && i < events@.len(),
            None => event_shown(events@, summoner_id) is None,
        },
{
    let mut i: usize = events.len();
    assert(events@.take(i as int) == events@);
    while i > 0
        invariant
            i <= events@.len(),
            event_shown(events@, summoner_id) == event_shown(events@.take(i as int), summoner_id),
        decreases i,
    {
        i = i - 1;
        proof {
            let upto = events@.take(i + 1);
            assert(upto.drop_last() == events@.take(i as int));
        }
        if events[i].summoner_id == summoner_id {
            return Some(i);
        }
    }
    None
}

/// Adds the three fields that show a player in an ended game.
fn add_ended_fields(
    embed: CreateEmbed,
    summoner: &Summoner,
    event: &NotificationEvent,
    stats: &str,
    enemy_stats: &str,
) -> (out: CreateEmbed)
    ensures
        embed_content(out) == (EmbedContent {
            fields: embed_content(embed).fields + ended_fields_of(
                *summoner,
                *event,
                (stats@, enemy_stats@),
            ),
            ..embed_content(embed)
        }),
{
    let won = match event.win {
        Some(true) => true,
        _ => false,
    };
    let mut name_field = String::from_str(
        if won {
            "🏆"
        } else {
            "💔"
        },
    );
    name_field.append(" ");
    name_field.append(summoner.game_name.as_str());

    let mut value_field = String::from_str("💎 ");
    value_field.append(event.champion_name.as_str());
    value_field.append(" · ");
    match &event.role {
        Some(role) => value_field.append(role.as_str()),
        None => value_field.append("Unknown"),
    }
    value_field.append(" · ");
    value_field.append(
        if won {
            "W"
        } else {
            "L"
        },
    );
    value_field.append(" ");
    push_decimal(
        &mut value_field,
        match event.kills {
            Some(v) => v as i64,
            None => 0,
        },
    );
    value_field.append("/");
    push_decimal(
        &mut value_field,
        match event.deaths {
            Some(v) => v as i64,
            None => 0,
        },
    );
    value_field.append("/");
    push_decimal(
        &mut value_field,
        match event.assists {
            Some(v) => v as i64,
            None => 0,
        },
    );

    let enemy_line = format_enemy_comparison(
        match &event.enemy_champion_name {
            Some(name) => Some(name.as_str()),
            None => None,
        },
        event.enemy_cs,
        event.enemy_gold,
        event.enemy_damage,
        enemy_stats,
    );

    let ghost before = embed_content(embed).fields;
    let ghost wanted = ended_fields_of(*summoner, *event, (stats@, enemy_stats@));
    let one = embed_field(embed, name_field.as_str(), value_field.as_str(), true);
    let two = embed_field(one, "📊 Stats", stats, true);
    let three = embed_field(two, "⚔️ vs", enemy_line.as_str(), true);
    assert(before.push(wanted[0]).push(wanted[1]).push(wanted[2]) == before + wanted);
    three
}

/// The notification that a group of players' game ended. `lines[i]` are the
/// lines of `events[i]`.
pub fn format_grouped_game_ended(
    summoners: &Vec<Summoner>,
    events: &Vec<NotificationEvent>,
    game_mode: &str,
    lines: &Vec<EventLines>,
) -> (embed: CreateEmbed)
    ensures
        embed_content(embed) == ended_content(summoners@, events@, game_mode@, lines@),
{
    let won = count_wins(events);
    let lost = events.len() - won;

    let featured = events.len() > 0 && events[0].is_featured_mode;
    let queue = if events.len() > 0 {
        events[0].queue_id
    } else {
        None
    };

    let mut description = String::from_str(game_mode);
    if featured {
        description.append(" featured mode ended! Match history may take a bit to update.");
    } else {
        description.append(" game ended! Check your stats.");
    }

    let mut footer_text = String::from_str("League of Legends · ");
    footer_text.append(game_mode);
    match queue {
        Some(id) => {
            let queue_type = get_queue_type_name(Some(id));
            footer_text.append(" · ");
            footer_text.append(queue_type.as_str());
        },
        None => {},
    }
    if featured {
        footer_text.append(" (Featured)");
    }

    let mut embed = embed_new();
    embed = embed_title(
        embed,
        if won > lost {
            "Game Won!"
        } else {
            "Game Lost!"
        },
    );
    embed = embed_description(embed, description.as_str());
    if lost == 0 {
        embed = embed_colour(embed, 46, 204, 113);
    } else if won == 0 {
        embed = embed_colour(embed, 231, 76, 60);
    } else {
        embed = embed_colour(embed, 241, 196, 15);
    }
    embed = embed_footer(embed, footer_text.as_str());
    embed = embed_timestamp_now(embed);

    let ghost wanted = ended_content(summoners@, events@, game_mode@, lines@);
    let mut i: usize = 0;
    while i < summoners.len()
        invariant
            i <= summoners@.len(),
            wanted == ended_content(summoners@, events@, game_mode@, lines@),
            embed_content(embed) == (EmbedContent {
                fields: ended_fields(summoners@.take(i as int), events@, lines@),
                ..wanted
            }),
        decreases summoners@.len() - i,
    {
        proof {
            let upto = summoners@.take(i + 1);
            assert(upto.drop_last() == summoners@.take(i as int));
        }
        match find_event(events, summoners[i].id) {
            Some(at) => {
                if at < lines.len() {
                    embed = add_ended_fields(
                        embed,
                        &summoners[i],
                        &events[at],
                        lines[at].stats.as_str(),
                        lines[at].enemy_stats.as_str(),
                    );
                } else {
                    proof {
                        assert(""@ == Seq::<char>::empty()) by {
                            reveal_strlit("");
                        }
                    }
                    embed = add_ended_fields(embed, &summoners[i], &events[at], "", "");
                }
            },
            None => {
            },
        }
        i = i + 1;
    }
    assert(summoners@.take(i as int) == summoners@);
    embed
}

/// The figures that a line of a notification shows.
#[derive(Clone, Copy, Debug, PartialEq, Eq, Structural)]
pub struct StatFigures {
    pub cs: i32,
    pub gold: i32,
    pub damage: i32,
    pub game_duration_secs: i32,
}

/// The player's own figures in an event; a figure that is missing counts as
/// nought.
pub fn stats_figures(event: &NotificationEvent) -> (figures: StatFigures)
    ensures
        figures.cs == figure(event.total_cs),
        figures.gold == figure(event.total_gold),
        figures.damage == figure(event.total_damage),
        figures.game_duration_secs == figure(event.game_duration_secs),
{
    StatFigures {
        cs: match event.total_cs {
            Some(v) => v,
            None => 0,
        },
        gold: match event.total_gold {
            Some(v) => v,
            None => 0,
        },
        damage: match event.total_damage {
            Some(v) => v,
            None => 0,
        },
        game_duration_secs: match event.game_duration_secs {
            Some(v) => v,
            None => 0,
        },
    }
}

/// The figures of the player's opponent in an event, where the opponent's
/// champion and all three figures are known: only then does the comparison
/// show them.
pub fn enemy_figures(event: &NotificationEvent) -> (figures: Option<StatFigures>)
    ensures
        figures is Some <==> event.enemy_champion_name is Some && event.enemy_cs is Some
            && event.enemy_gold is Some && event.enemy_damage is Some,
        figures matches Some(f) ==> f.cs == event.enemy_cs->0 && f.gold == event.enemy_gold->0
            && f.damage == event.enemy_damage->0 && f.game_duration_secs == figure(
            event.game_duration_secs,
        ),
{
    match (&event.enemy_champion_name, event.enemy_cs, event.enemy_gold, event.enemy_damage) {
        (Some(_), Some(cs), Some(gold), Some(damage)) => Some(
            StatFigures {
                cs,
                gold,
                damage,
                game_duration_secs: match event.game_duration_secs {
                    Some(v) => v,
                    None => 0,
                },
            },
        ),
        _ => None,
    }
}

} // verus!
