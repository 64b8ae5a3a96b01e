//! Routing for the upstream API, and the errors a client of it reports.

use crate::db::models::{instant_of_millis, Timestamp};
use crate::riot::models::{ActiveGameInfo, MatchResult, SummonerInfo};
use crate::text::{parse_i64, parsed_i64, text_eq};
use vstd::prelude::*;

verus! {

/// Why a call to the upstream API failed. Each cause from underneath is
/// carried as the text it was reported with.
#[derive(Debug)]
pub enum RiotClientError {
    /// The API answered with an error.
    ApiError(String),
    /// No account has this game name and tag line.
    AccountNotFound(String, String),
    /// The region is not one the API serves.
    UnknownRegion(String),
    /// The request did not get through.
    HttpError(String),
    /// The answer could not be read.
    JsonError(String),
}

impl RiotClientError {
    /// The message of the error, as a sequence of characters.
    pub open spec fn message_text(self) -> Seq<char> {
        match self {
            RiotClientError::ApiError(cause) => "Riot API error: "@ + cause@,
            RiotClientError::AccountNotFound(name, tag) => "Account not found: "@ + name@ + "#"@
                + tag@,
            RiotClientError::UnknownRegion(region) => "Unknown region: "@ + region@,
            RiotClientError::HttpError(cause) => "HTTP error: "@ + cause@,
            RiotClientError::JsonError(cause) => "JSON parse error: "@ + cause@,
        }
    }

    /// The message of the error.
    pub fn message(&self) -> (text: String)
        ensures
            text@ == self.message_text(),
    {
        match self {
            RiotClientError::ApiError(cause) => {
                let mut text = String::from_str("Riot API error: ");
                text.append(cause.as_str());
                text
            },
            RiotClientError::AccountNotFound(name, tag) => {
                let mut text = String::from_str("Account not found: ");
                text.append(name.as_str());
                text.append("#");
                text.append(tag.as_str());
                text
            },
            RiotClientError::UnknownRegion(region) => {
                let mut text = String::from_str("Unknown region: ");
                text.append(region.as_str());
                text
            },
            RiotClientError::HttpError(cause) => {
                let mut text = String::from_str("HTTP error: ");
                text.append(cause.as_str());
                text
            },
            RiotClientError::JsonError(cause) => {
                let mut text = String::from_str("JSON parse error: ");
                text.append(cause.as_str());
                text
            },
        }
    }
}

/// The platform that serves a player's live games.
#[derive(Clone, Copy, Debug, PartialEq, Eq, Structural)]
pub enum PlatformRoute {
    BR1,
    EUN1,
    EUW1,
    JP1,
    KR,
    LA1,
    LA2,
    NA1,
    OC1,
    TR1,
    RU,
    SG2,
    TW2,
    VN2,
}

/// The regional cluster that serves accounts and match history.
#[derive(Clone, Copy, Debug, PartialEq, Eq, Structural)]
pub enum RegionalRoute {
    AMERICAS,
    ASIA,
    EUROPE,
    SEA,
}

impl PlatformRoute {
    /// The platform's identifier as the API writes it, for one in match ids.
    pub open spec fn name(self) -> Seq<char> {
        match self {
            PlatformRoute::BR1 => "BR1"@,
            PlatformRoute::EUN1 => "EUN1"@,
            PlatformRoute::EUW1 => "EUW1"@,
            PlatformRoute::JP1 => "JP1"@,
            PlatformRoute::KR => "KR"@,
            PlatformRoute::LA1 => "LA1"@,
            PlatformRoute::LA2 => "LA2"@,
            PlatformRoute::NA1 => "NA1"@,
            PlatformRoute::OC1 => "OC1"@,
            PlatformRoute::TR1 => "TR1"@,
            PlatformRoute::RU => "RU"@,
            PlatformRoute::SG2 => "SG2"@,
            PlatformRoute::TW2 => "TW2"@,
            PlatformRoute::VN2 => "VN2"@,
        }
    }

    /// The platform's identifier as the API writes it.
    pub fn as_str(&self) -> (text: &'static str)
        ensures
            text@ == self.name(),
    {
        match self {
            PlatformRoute::BR1 => "BR1",
            PlatformRoute::EUN1 => "EUN1",
            PlatformRoute::EUW1 => "EUW1",
            PlatformRoute::JP1 => "JP1",
            PlatformRoute::KR => "KR",
            PlatformRoute::LA1 => "LA1",
            PlatformRoute::LA2 => "LA2",
            PlatformRoute::NA1 => "NA1",
            PlatformRoute::OC1 => "OC1",
            PlatformRoute::TR1 => "TR1",
            PlatformRoute::RU => "RU",
            PlatformRoute::SG2 => "SG2",
            PlatformRoute::TW2 => "TW2",
            PlatformRoute::VN2 => "VN2",
        }
    }
}

/// The lowercase form of a text, as `str::to_lowercase` gives it.
pub uninterp spec fn lowercase(text: Seq<char>) -> Seq<char>;

/// `str::to_lowercase`: the lowercase equivalent of the string, by the
/// Unicode rules for lowercasing. The result depends on the text alone.
#[verifier::external_body]
fn to_lowercase(text: &str) -> (lower: String)
    ensures
        lower@ == lowercase(text@),
{
    text.to_lowercase()
}

/// The platform that a lowercase region code names. A code that names none
/// stands for Western Europe.
pub open spec fn platform_of(code: Seq<char>) -> PlatformRoute {
    if code == "br1"@ || code == "br"@ {
        PlatformRoute::BR1
    } else if code == "eun1"@ || code == "eune"@ {
        PlatformRoute::EUN1
    } else if code == "euw1"@ || code == "euw"@ {
        PlatformRoute::EUW1
    } else if code == "jp1"@ || code == "jp"@ {
        PlatformRoute::JP1
    } else if code == "kr"@ {
        PlatformRoute::KR
    } else if code == "la1"@ || code == "lan"@ {
        PlatformRoute::LA1
    } else if code == "la2"@ || code == "las"@ {
        PlatformRoute::LA2
    } else if code == "na1"@ || code == "na"@ {
        PlatformRoute::NA1
    } else if code == "oc1"@ || code == "oce"@ {
        PlatformRoute::OC1
    } else if code == "tr1"@ || code == "tr"@ {
        PlatformRoute::TR1
    } else if code == "ru"@ {
        PlatformRoute::RU
    } else if code == "sg2"@ || code == "sg"@ {
        PlatformRoute::SG2
    } else if code == "tw2"@ || code == "tw"@ {
        PlatformRoute::TW2
    } else if code == "vn2"@ || code == "vn"@ {
        PlatformRoute::VN2
    } else {
        PlatformRoute::EUW1
    }
}

/// The regional cluster that a lowercase region code belongs to. A code that
/// names no region stands for Europe.
pub open spec fn regional_of(code: Seq<char>) -> RegionalRoute {
    if code == "br1"@ || code == "br"@ || code == "la1"@ || code == "lan"@ || code == "la2"@
        || code == "las"@ || code == "na1"@ || code == "na"@ || code == "oc1"@ || code == "oce"@ {
        RegionalRoute::AMERICAS
    } else if code == "jp1"@ || code == "jp"@ || code == "kr"@ {
        RegionalRoute::ASIA
    } else if code == "sg2"@ || code == "sg"@ || code == "tw2"@ || code == "tw"@ || code
        == "vn2"@ || code == "vn"@ {
        RegionalRoute::SEA
    } else {
        RegionalRoute::EUROPE
    }
}

/// The platform that a lowercase region code names.
pub fn platform_for_code(code: &str) -> (platform: PlatformRoute)
    ensures
        platform == platform_of(code@),
{
    if text_eq(code, "br1") || text_eq(code, "br") {
        PlatformRoute::BR1
    } else if text_eq(code, "eun1") || text_eq(code, "eune") {
        PlatformRoute::EUN1
    } else if text_eq(code, "euw1") || text_eq(code, "euw") {
        PlatformRoute::EUW1
    } else if text_eq(code, "jp1") || text_eq(code, "jp") {
        PlatformRoute::JP1
    } else if text_eq(code, "kr") {
        PlatformRoute::KR
    } else if text_eq(code, "la1") || text_eq(code, "lan") {
        PlatformRoute::LA1
    } else if text_eq(code, "la2") || text_eq(code, "las") {
        PlatformRoute::LA2
    } else if text_eq(code, "na1") || text_eq(code, "na") {
        PlatformRoute::NA1
    } else if text_eq(code, "oc1") || text_eq(code, "oce") {
        PlatformRoute::OC1
    } else if text_eq(code, "tr1") || text_eq(code, "tr") {
        PlatformRoute::TR1
    } else if text_eq(code, "ru") {
        PlatformRoute::RU
    } else if text_eq(code, "sg2") || text_eq(code, "sg") {
        PlatformRoute::SG2
    } else if text_eq(code, "tw2") || text_eq(code, "tw") {
        PlatformRoute::TW2
    } else if text_eq(code, "vn2") || text_eq(code, "vn") {
        PlatformRoute::VN2
    } else {
        PlatformRoute::EUW1
    }
}

/// The regional cluster that a lowercase region code belongs to.
pub fn regional_for_code(code: &str) -> (regional: RegionalRoute)
    ensures
        regional == regional_of(code@),
{
    if text_eq(code, "br1") || text_eq(code, "br") || text_eq(code, "la1") || text_eq(code, "lan")
        || text_eq(code, "la2") || text_eq(code, "las") || text_eq(code, "na1") || text_eq(
        code,
        "na",
    ) || text_eq(code, "oc1") || text_eq(code, "oce") {
        RegionalRoute::AMERICAS
    } else if text_eq(code, "jp1") || text_eq(code, "jp") || text_eq(code, "kr") {
        RegionalRoute::ASIA
    } else if text_eq(code, "sg2") || text_eq(code, "sg") || text_eq(code, "tw2") || text_eq(
        code,
        "tw",
    ) || text_eq(code, "vn2") || text_eq(code, "vn") {
        RegionalRoute::SEA
    } else {
        RegionalRoute::EUROPE
    }
}

/// The client of the upstream API: the key it calls with, the routes it
/// calls on, and what it makes of the answers.
#[derive(Debug)]
pub struct RiotClient {
    pub api_key: String,
}

impl RiotClient {
    pub fn new(api_key: &str) -> (client: Self)
        ensures
            client.api_key@ == api_key@,
    {
        RiotClient { api_key: String::from_str(api_key) }
    }

    /// The platform that serves `region`, whatever case it is written in.
    pub fn platform_for_region(region: &str) -> (platform: PlatformRoute)
        ensures
            platform == platform_of(lowercase(region@)),
    {
        let lower = to_lowercase(region);
        platform_for_code(lower.as_str())
    }

    /// The regional cluster that serves `region`, whatever case it is written
    /// in.
    pub fn regional_for_region(region: &str) -> (regional: RegionalRoute)
        ensures
            regional == regional_of(lowercase(region@)),
    {
        let lower = to_lowercase(region);
        regional_for_code(lower.as_str())
    }
}

/// An account as the upstream API answers for it.
#[derive(Debug)]
pub struct AccountData {
    pub puuid: String,
    pub game_name: Option<String>,
    pub tag_line: Option<String>,
}

/// A player in a game in progress.
#[derive(Debug)]
pub struct SpectatorParticipant {
    pub puuid: Option<String>,
    pub champion_id: i32,
}

/// A game in progress as the upstream API answers for it. The start time is
/// in milliseconds since the Unix epoch.
#[derive(Debug)]
pub struct SpectatorGame {
    pub game_id: i64,
    pub game_mode: String,
    pub game_start_time: i64,
    pub participants: Vec<SpectatorParticipant>,
}

/// A player in a finished match.
#[derive(Debug)]
pub struct MatchParticipant {
    pub puuid: String,
    pub team_position: String,
    pub team_id: i32,
    pub win: bool,
    pub kills: i32,
    pub deaths: i32,
    pub assists: i32,
    /// The champion played, where the API's answer tells it.
    pub champion_id: Option<i32>,
    pub champion_name: String,
    pub total_minions_killed: i32,
    pub neutral_minions_killed: i32,
    pub gold_earned: i32,
    pub total_damage_dealt_to_champions: i32,
}

/// A finished match as the upstream API answers for it.
#[derive(Debug)]
pub struct MatchData {
    pub match_id: String,
    pub game_id: i64,
    pub game_duration: i64,
    pub game_mode: String,
    pub participants: Vec<MatchParticipant>,
}

/// Whether the participant is the account.
pub open spec fn is_account(participant: SpectatorParticipant, puuid: Seq<char>) -> bool {
    participant.puuid matches Some(p) && p@ == puuid
}

/// Whether `at` is the place of the first participant who is the account.
pub open spec fn is_seat(participants: Seq<SpectatorParticipant>, puuid: Seq<char>, at: int) -> bool {
    &&& 0 <= at < participants.len()
    &&& is_account(participants[at], puuid)
    &&& forall|j: int| 0 <= j < at ==> !is_account(#[trigger] participants[j], puuid)
}

/// The champion that the account plays in the game: that of the first
/// participant who is the account, nought where none is.
pub open spec fn champion_played(participants: Seq<SpectatorParticipant>, puuid: Seq<char>) -> i32 {
    if exists|at: int| is_seat(participants, puuid, at) {
        participants[choose|at: int| is_seat(participants, puuid, at)].champion_id
    } else {
        0
    }
}

/// What the tracker is told of a game in progress: the champion that the
/// account plays, the mode, and the start time, which is `started` if
/// there is such an instant and the time `now` if not.
pub open spec fn active_game_of(
    game: SpectatorGame,
    puuid: Seq<char>,
    started: Option<Timestamp>,
    now: Timestamp,
) -> ActiveGameInfo {
    ActiveGameInfo {
        game_id: game.game_id,
        champion_id: champion_played(game.participants@, puuid),
        game_mode: game.game_mode,
        game_start_time: match started {
            Some(at) => at,
            None => now,
        },
    }
}

/// Whether the participant of a match is the account.
pub open spec fn is_player(participant: MatchParticipant, puuid: Seq<char>) -> bool {
    participant.puuid@ == puuid
}

/// Whether the participant is the account's opponent: in the same position,
/// on another team, and not the account.
pub open spec fn is_opponent(participant: MatchParticipant, player: MatchParticipant, puuid: Seq<char>)
    -> bool {
    &&& participant.team_position@ == player.team_position@
    &&& participant.team_id != player.team_id
    &&& participant.puuid@ != puuid
}

/// Whether `at` is the place of the account in the match: of the first
/// participant who is the account.
pub open spec fn is_player_at(participants: Seq<MatchParticipant>, puuid: Seq<char>, at: int)
    -> bool {
    &&& 0 <= at < participants.len()
    &&& is_player(participants[at], puuid)
    &&& forall|j: int| 0 <= j < at ==> !is_player(#[trigger] participants[j], puuid)
}

/// Whether `at` is the place of the first opponent of `player`.
pub open spec fn is_opponent_at(
    participants: Seq<MatchParticipant>,
    player: MatchParticipant,
    puuid: Seq<char>,
    at: int,
) -> bool {
    &&& 0 <= at < participants.len()
    &&& is_opponent(participants[at], player, puuid)
    &&& forall|j: int| 0 <= j < at ==> !is_opponent(#[trigger] participants[j], player, puuid)
}

/// The player's result with the opponent's figures, if there is an opponent.
///
/// The creep score is the sum of the minions and the neutral minions killed,
/// as 32-bit addition gives it. The duration is the match's, cut to 32
/// bits. The champion is nought where the API's answer does not tell it.
pub open spec fn result_of(data: MatchData, player: MatchParticipant, opponent: Option<
    MatchParticipant,
>) -> MatchResult {
    MatchResult {
        match_id: data.match_id,
        game_id: data.game_id,
        win: player.win,
        kills: player.kills,
        deaths: player.deaths,
        assists: player.assists,
        champion_id: match player.champion_id {
            Some(id) => id,
            None => 0,
        },
        game_duration_secs: data.game_duration as i32,
        game_mode: data.game_mode,
        role: player.team_position,
        total_cs: player.total_minions_killed.wrapping_add(player.neutral_minions_killed),
        total_gold: player.gold_earned,
        total_damage: player.total_damage_dealt_to_champions,
        enemy_champion_name: match opponent {
            Some(enemy) => Some(enemy.champion_name),
            None => None,
        },
        enemy_cs: match opponent {
            Some(enemy) => Some(
                enemy.total_minions_killed.wrapping_add(enemy.neutral_minions_killed),
            ),
            None => None,
        },
        enemy_gold: match opponent {
            Some(enemy) => Some(enemy.gold_earned),
            None => None,
        },
        enemy_damage: match opponent {
            Some(enemy) => Some(enemy.total_damage_dealt_to_champions),
            None => None,
        },
    }
}

/// The account's result in the match: none where the account did not play in
/// it; else the result of the first participant who is the account, compared
/// with the first opponent if there is one.
pub open spec fn match_result_of(data: MatchData, puuid: Seq<char>) -> Option<MatchResult> {
    let participants = data.participants@;
    if exists|at: int| is_player_at(participants, puuid, at) {
        let player = participants[choose|at: int| is_player_at(participants, puuid, at)];
        if exists|at: int| is_opponent_at(participants, player, puuid, at) {
            Some(
                result_of(
                    data,
                    player,
                    Some(
                        participants[choose|at: int|
                            is_opponent_at(participants, player, puuid, at)],
                    ),
                ),
            )
        } else {
            Some(result_of(data, player, None))
        }
    } else {
        None
    }
}

/// What a text writes as a signed 32-bit integer.
pub open spec fn parsed_i32(text: Seq<char>) -> Option<i32> {
    match parsed_i64(text) {
        Some(n) => if -0x8000_0000 <= n <= 0x7fff_ffff {
            Some(n as i32)
        } else {
            None
        },
        None => None,
    }
}

/// The champions that the entries name, each by its number: an entry is a
/// champion's key and name, and it counts where the key is a number. The
/// entries that count are listed in their order.
pub open spec fn champions_named(entries: Seq<(String, String)>) -> Seq<(i32, String)>
    decreases entries.len(),
{
    if entries.len() == 0 {
        Seq::empty()
    } else {
        let before = champions_named(entries.drop_last());
        match parsed_i32(entries.last().0@) {
            Some(id) => before.push((id, entries.last().1)),
            None => before,
        }
    }
}

impl RiotClient {
    /// What the tracker is told of an account: the account as it was
    /// answered for, with the parts of the name that are missing left
    /// empty; or that there is no account of this name.
    pub fn get_account_by_riot_id(account: Option<AccountData>, game_name: &str, tag_line: &str)
        -> (info: Result<SummonerInfo, RiotClientError>)
        ensures
            match account {
                Some(data) => info matches Ok(found) && found.puuid == data.puuid && (
                match data.game_name {
                    Some(name) => found.game_name == name,
                    None => found.game_name@ == Seq::<char>::empty(),
                }) && (match data.tag_line {
                    Some(tag) => found.tag_line == tag,
                    None => found.tag_line@ == Seq::<char>::empty(),
                }),
                None => info matches Err(RiotClientError::AccountNotFound(name, tag)) && name@
                    == game_name@ && tag@ == tag_line@,
            },
    {
        match account {
            Some(data) => Ok(
                SummonerInfo {
                    puuid: data.puuid,
                    game_name: match data.game_name {
                        Some(name) => name,
                        None => String::new(),
                    },
                    tag_line: match data.tag_line {
                        Some(tag) => tag,
                        None => String::new(),
                    },
                },
            ),
            None => Err(
                RiotClientError::AccountNotFound(
                    String::from_str(game_name),
                    String::from_str(tag_line),
                ),
            ),
        }
    }

    /// What the tracker is told of a game in progress, where `started` is
    /// the instant that the game's start time stands for, if there is one.
    pub fn active_game_info(
        game: SpectatorGame,
        puuid: &str,
        started: Option<Timestamp>,
        now: Timestamp,
    ) -> (info: ActiveGameInfo)
        ensures
            info == active_game_of(game, puuid@, started, now),
    {
        let champion_id = find_champion(&game.participants, puuid);
        ActiveGameInfo {
            game_id: game.game_id,
            champion_id,
            game_mode: game.game_mode,
            game_start_time: match started {
                Some(at) => at,
                None => now,
            },
        }
    }

    /// What the tracker is told of the game that an account is in, read at
    /// the time `now`. The game's start time is in milliseconds since the
    /// Unix epoch; where the calendar does not reach that far, the game
    /// counts as started at `now`.
    pub fn get_active_game(game: Option<SpectatorGame>, puuid: &str, now: Timestamp) -> (info:
        Option<ActiveGameInfo>)
        ensures
            info == match game {
                Some(g) => Some(
                    active_game_of(g, puuid@, instant_of_millis(g.game_start_time), now),
                ),
                None => None,
            },
    {
        match game {
            None => None,
            Some(g) => {
                let started = Timestamp::from_millis(g.game_start_time);
                Some(Self::active_game_info(g, puuid, started, now))
            },
        }
    }

    /// What the tracker is told of an account's result in a match.
    pub fn get_match_result(data: Option<MatchData>, puuid: &str) -> (result: Option<MatchResult>)
        ensures
            result == match data {
                Some(d) => match_result_of(d, puuid@),
                None => None,
            },
    {
        match data {
            None => None,
            Some(d) => {
                let player_at = find_player(&d.participants, puuid);
                match player_at {
                    None => None,
                    Some(at) => {
                        let opponent_at = find_opponent(&d.participants, at, puuid);
                        let player = &d.participants[at];
                        let total_cs = player.total_minions_killed.wrapping_add(
                            player.neutral_minions_killed,
                        );
                        let (enemy_champion_name, enemy_cs, enemy_gold, enemy_damage) =
                            match opponent_at {
                            Some(e) => {
                                let enemy = &d.participants[e];
                                (
                                    Some(enemy.champion_name.clone()),
                                    Some(
                                        enemy.total_minions_killed.wrapping_add(
                                            enemy.neutral_minions_killed,
                                        ),
                                    ),
                                    Some(enemy.gold_earned),
                                    Some(enemy.total_damage_dealt_to_champions),
                                )
                            },
                            None => (None, None, None, None),
                        };
                        Some(
                            MatchResult {
                                win: player.win,
                                kills: player.kills,
                                deaths: player.deaths,
                                assists: player.assists,
                                champion_id: match player.champion_id {
                                    Some(id) => id,
                                    None => 0,
                                },
                                game_duration_secs: d.game_duration as i32,
                                role: player.team_position.clone(),
                                total_cs,
                                total_gold: player.gold_earned,
                                total_damage: player.total_damage_dealt_to_champions,
                                enemy_champion_name,
                                enemy_cs,
                                enemy_gold,
                                enemy_damage,
                                match_id: d.match_id,
                                game_id: d.game_id,
                                game_mode: d.game_mode,
                            },
                        )
                    },
                }
            },
        }
    }

    /// What the tracker is told of an account's most recent match: the
    /// first of the ids answered, which come newest first.
    pub fn get_recent_match_id(match_ids: &Vec<String>) -> (recent: Option<String>)
        ensures
            recent == if match_ids@.len() > 0 {
                Some(match_ids@[0])
            } else {
                None
            },
    {
        if match_ids.len() > 0 {
            Some(match_ids[0].clone())
        } else {
            None
        }
    }

    /// The champions that the entries of the game's data name, each by its
    /// number.
    pub fn get_all_champions(entries: &Vec<(String, String)>) -> (champions: Vec<(i32, String)>)
        ensures
            champions@ == champions_named(entries@),
    {
        let mut champions: Vec<(i32, String)> = Vec::new();
        let mut i: usize = 0;
        while i < entries.len()
            invariant
                i <= entries@.len(),
                champions@ == champions_named(entries@.take(i as int)),
            decreases entries@.len() - i,
        {
            proof {
                let upto = entries@.take(i + 1);
                assert(upto.drop_last() == entries@.take(i as int));
            }
            match parse_i32(entries[i].0.as_str()) {
                Some(id) => {
                    champions.push((id, entries[i].1.clone()));
                },
                None => {},
            }
            i = i + 1;
        }
        assert(entries@.take(i as int) == entries@);
        champions
    }
}

/// Reads a text as a signed 32-bit integer in decimal.
pub fn parse_i32(text: &str) -> (n: Option<i32>)
    ensures
        n == parsed_i32(text@),
{
    match parse_i64(text) {
        Some(v) => {
            if -0x8000_0000 <= v && v <= 0x7fff_ffff {
                Some(v as i32)
            } else {
                None
            }
        },
        None => None,
    }
}

fn find_champion(participants: &Vec<SpectatorParticipant>, puuid: &str) -> (champion_id: i32)
    ensures
        champion_id == champion_played(participants@, puuid@),
{
    let mut i: usize = 0;
    while i < participants.len()
        invariant
            i <= participants@.len(),
            forall|j: int| 0 <= j < i ==> !is_account(#[trigger] participants@[j], puuid@),
        decreases participants@.len() - i,
    {
        let found = match &participants[i].puuid {
            Some(p) => text_eq(p.as_str(), puuid),
            None => false,
        };
        if found {
            proof {
                assert(is_seat(participants@, puuid@, i as int));
            }
            return participants[i].champion_id;
        }
        i = i + 1;
    }
    0
}

fn find_player(participants: &Vec<MatchParticipant>, puuid: &str) -> (at: Option<usize>)
    ensures
        match at {
            Some(i) => is_player_at(participants@, puuid@, i as int),
            None => forall|j: int| !is_player_at(participants@, puuid@, j),
        },
{
    let mut i: usize = 0;
    while i < participants.len()
        invariant
            i <= participants@.len(),
            forall|j: int| 0 <= j < i ==> !is_player(#[trigger] participants@[j], puuid@),
        decreases participants@.len() - i,
    {
        if text_eq(participants[i].puuid.as_str(), puuid) {
            return Some(i);
        }
        i = i + 1;
    }
    None
}

fn find_opponent(participants: &Vec<MatchParticipant>, player_at: usize, puuid: &str) -> (at:
    Option<usize>)
    requires
        player_at < participants@.len(),
    ensures
        match at {
            Some(i) => is_opponent_at(
                participants@,
                participants@[player_at as int],
                puuid@,
                i as int,
            ),
            None => forall|j: int|
                !is_opponent_at(participants@, participants@[player_at as int], puuid@, j),
        },
{
    let player = &participants[player_at];
    let mut i: usize = 0;
    while i < participants.len()
        invariant
            i <= participants@.len(),
            player_at < participants@.len(),
            *player == participants@[player_at as int],
            forall|j: int|
                0 <= j < i ==> !is_opponent(#[trigger] participants@[j], *player, puuid@),
        decreases participants@.len() - i,
    {
        let other = &participants[i];
        if text_eq(other.team_position.as_str(), player.team_position.as_str()) && other.team_id
            != player.team_id && !text_eq(other.puuid.as_str(), puuid) {
            return Some(i);
        }
        i = i + 1;
    }
    None
}

} // verus!
