//! The settings of the service, and the list of players to track as it is
//! written in them.

use crate::text::{
    char_is_alphanumeric, chars_of, find_first_in, find_last_in, is_alphanumeric, is_first_at,
    is_last_at, parse_u64, parsed_u64, string_of, trim_range, trimmed,
};
use vstd::prelude::*;
use vstd::utf8::encode_utf8;

verus! {

/// A player to track, by game name and tag line.
#[derive(Debug)]
pub struct SummonerConfig {
    pub name: String,
    pub tag: String,
}

impl Clone for SummonerConfig {
    fn clone(&self) -> (copy: Self)
        ensures
            copy == *self,
    {
        SummonerConfig { name: self.name.clone(), tag: self.tag.clone() }
    }
}

/// Why the settings could not be had.
#[derive(Debug)]
pub enum ConfigError {
    /// A setting that is needed is not there.
    MissingEnvVar(String),
    /// A setting has a value that it cannot take: the setting, then the
    /// value.
    InvalidValue(String, String),
    /// The list of players is not of the form `name#tag|name#tag`.
    InvalidSummonerFormat(String),
}

impl ConfigError {
    /// The message of the error, as a sequence of characters.
    pub open spec fn message_text(self) -> Seq<char> {
        match self {
            ConfigError::MissingEnvVar(name) => "Missing required environment variable: "@ + name@,
            ConfigError::InvalidValue(name, value) => "Invalid environment variable value for "@
                + name@ + ": "@ + value@,
            ConfigError::InvalidSummonerFormat(entry) => "Invalid summoner name format: "@ + entry@,
        }
    }

    /// The message of the error.
    pub fn message(&self) -> (text: String)
        ensures
            text@ == self.message_text(),
    {
        match self {
            ConfigError::MissingEnvVar(name) => {
                let mut text = String::from_str("Missing required environment variable: ");
                text.append(name.as_str());
                text
            },
            ConfigError::InvalidValue(name, value) => {
                let mut text = String::from_str("Invalid environment variable value for ");
                text.append(name.as_str());
                text.append(": ");
                text.append(value.as_str());
                text
            },
            ConfigError::InvalidSummonerFormat(entry) => {
                let mut text = String::from_str("Invalid summoner name format: ");
                text.append(entry.as_str());
                text
            },
        }
    }
}

/// The length of a text in bytes, as UTF-8.
pub open spec fn byte_length(text: Seq<char>) -> nat {
    encode_utf8(text).len()
}

/// Whether a character may stand in a game name: a letter, a digit, a
/// blank, a hyphen or an underscore.
pub open spec fn is_name_char(c: char) -> bool {
    is_alphanumeric(c) || c == ' ' || c == '-' || c == '_'
}

/// Whether a text is a game name: not empty, 24 bytes at most, and made of
/// characters that may stand in one.
pub open spec fn valid_summoner_name(name: Seq<char>) -> bool {
    &&& name.len() > 0
    &&& byte_length(name) <= 24
    &&& forall|i: int| 0 <= i < name.len() ==> is_name_char(#[trigger] name[i])
}

/// Whether a text is a tag line: not empty, 5 bytes at most, and made of
/// letters and digits.
pub open spec fn valid_tag(tag: Seq<char>) -> bool {
    &&& tag.len() > 0
    &&& byte_length(tag) <= 5
    &&& forall|i: int| 0 <= i < tag.len() ==> is_alphanumeric(#[trigger] tag[i])
}

/// Whether a text is a game name.
pub fn is_valid_summoner_name(name: &str) -> (valid: bool)
    ensures
        valid == valid_summoner_name(name@),
{
    if name.unicode_len() == 0 || name.as_bytes().len() > 24 {
        return false;
    }
    let chars = chars_of(name);
    let mut i: usize = 0;
    while i < chars.len()
        invariant
            i <= chars@.len(),
            chars@ == name@,
            forall|j: int| 0 <= j < i ==> is_name_char(#[trigger] name@[j]),
        decreases chars@.len() - i,
    {
        let c = chars[i];
        if !(char_is_alphanumeric(c) || c == ' ' || c == '-' || c == '_') {
            return false;
        }
        i = i + 1;
    }
    true
}

/// Whether a text is a tag line.
pub fn is_valid_tag(tag: &str) -> (valid: bool)
    ensures
        valid == valid_tag(tag@),
{
    if tag.unicode_len() == 0 || tag.as_bytes().len() > 5 {
        return false;
    }
    let chars = chars_of(tag);
    let mut i: usize = 0;
    while i < chars.len()
        invariant
            i <= chars@.len(),
            chars@ == tag@,
            forall|j: int| 0 <= j < i ==> is_alphanumeric(#[trigger] tag@[j]),
        decreases chars@.len() - i,
    {
        if !char_is_alphanumeric(chars[i]) {
            return false;
        }
        i = i + 1;
    }
    true
}

/// What one entry of the list says: the game name and the tag line, or the
/// text of what is wrong with it.
///
/// The entry is read without the whitespace around it. Its last `#` parts
/// the name from the tag, each read without the whitespace around it. An
/// entry without a `#`, without a name or without a tag is wrong as a whole;
/// otherwise a name that is no game name is, and then a tag that is no tag
/// line.
pub open spec fn entry_parsed(entry: Seq<char>) -> Result<(Seq<char>, Seq<char>), Seq<char>> {
    let text = trimmed(entry);
    if !text.contains('#') {
        Err(text)
    } else {
        let at = choose|i: int| is_last_at(text, '#', i);
        let name = trimmed(text.take(at));
        let tag = trimmed(text.skip(at + 1));
        if name.len() == 0 || tag.len() == 0 {
            Err(text)
        } else if !valid_summoner_name(name) {
            Err("Invalid name: "@ + name)
        } else if !valid_tag(tag) {
            Err("Invalid tag: "@ + tag)
        } else {
            Ok((name, tag))
        }
    }
}

/// The parts of a text that `separator` parts: one more than there are
/// separators in it.
pub open spec fn split(text: Seq<char>, separator: char) -> Seq<Seq<char>>
    decreases text.len(),
{
    let at = choose|i: int| is_first_at(text, separator, i);
    if is_first_at(text, separator, at) {
        seq![text.take(at)] + split(text.skip(at + 1), separator)
    } else {
        seq![text]
    }
}

/// What the entries say, in their order: the players, or what is wrong with
/// the first entry that is wrong.
pub open spec fn entries_parsed(entries: Seq<Seq<char>>) -> Result<
    Seq<(Seq<char>, Seq<char>)>,
    Seq<char>,
>
    decreases entries.len(),
{
    if entries.len() == 0 {
        Ok(Seq::empty())
    } else {
        match entry_parsed(entries[0]) {
            Err(wrong) => Err(wrong),
            Ok(first) => match entries_parsed(entries.drop_first()) {
                Err(wrong) => Err(wrong),
                Ok(rest) => Ok(seq![first] + rest),
            },
        }
    }
}

/// What a list of players says: no player where it is blank, else what its
/// entries say, which `|` parts.
pub open spec fn summoner_names_parsed(input: Seq<char>) -> Result<
    Seq<(Seq<char>, Seq<char>)>,
    Seq<char>,
> {
    if trimmed(input).len() == 0 {
        Ok(Seq::empty())
    } else {
        entries_parsed(split(input, '|'))
    }
}

/// The players as pairs of game name and tag line.
pub open spec fn summoner_pairs(summoners: Seq<SummonerConfig>) -> Seq<(Seq<char>, Seq<char>)> {
    summoners.map_values(|s: SummonerConfig| (s.name@, s.tag@))
}

/// Reads the entry in `chars[from..to]`.
fn parse_entry(chars: &Vec<char>, from: usize, to: usize) -> (entry: Result<SummonerConfig, String>)
    requires
        from <= to <= chars@.len(),
    ensures
        match entry {
            Ok(summoner) => entry_parsed(chars@.subrange(from as int, to as int)) == Ok::<
                (Seq<char>, Seq<char>),
                Seq<char>,
            >((summoner.name@, summoner.tag@)),
            Err(wrong) => entry_parsed(chars@.subrange(from as int, to as int)) == Err::<
                (Seq<char>, Seq<char>),
                Seq<char>,
            >(wrong@),
        },
{
    let (a, b) = trim_range(chars, from, to);
    let ghost text = chars@.subrange(a as int, b as int);
    match find_last_in(chars, a, b, '#') {
        None => Err(string_of(chars, a, b)),
        Some(hash) => {
            proof {
                assert(text.take(hash - a) == chars@.subrange(a as int, hash as int));
                assert(text.skip(hash - a + 1) == chars@.subrange(hash + 1, b as int));
            }
            let (name_from, name_to) = trim_range(chars, a, hash);
            let (tag_from, tag_to) = trim_range(chars, hash + 1, b);
            if name_from == name_to || tag_from == tag_to {
                return Err(string_of(chars, a, b));
            }
            let name = string_of(chars, name_from, name_to);
            let tag = string_of(chars, tag_from, tag_to);
            if !is_valid_summoner_name(name.as_str()) {
                let mut wrong = String::from_str("Invalid name: ");
                wrong.append(name.as_str());
                return Err(wrong);
            }
            if !is_valid_tag(tag.as_str()) {
                let mut wrong = String::from_str("Invalid tag: ");
                wrong.append(tag.as_str());
                return Err(wrong);
            }
            Ok(SummonerConfig { name, tag })
        },
    }
}

/// What has been read of a list, and what the rest of it says, taken
/// together.
spec fn with_read(
    read: Seq<(Seq<char>, Seq<char>)>,
    rest: Result<Seq<(Seq<char>, Seq<char>)>, Seq<char>>,
) -> Result<Seq<(Seq<char>, Seq<char>)>, Seq<char>> {
    match rest {
        Ok(more) => Ok(read + more),
        Err(wrong) => Err(wrong),
    }
}

/// Reads a list of players, written as `name#tag|name#tag`.
pub fn parse_summoner_names(input: &str) -> (parsed: Result<Vec<SummonerConfig>, ConfigError>)
    ensures
        match parsed {
            Ok(summoners) => summoner_names_parsed(input@) == Ok::<
                Seq<(Seq<char>, Seq<char>)>,
                Seq<char>,
            >(summoner_pairs(summoners@)),
            Err(ConfigError::InvalidSummonerFormat(wrong)) => summoner_names_parsed(input@) == Err::<
                Seq<(Seq<char>, Seq<char>)>,
                Seq<char>,
            >(wrong@),
            Err(_) => false,
        },
{
    let chars = chars_of(input);
    let n = chars.len();
    let mut summoners: Vec<SummonerConfig> = Vec::new();
    assert(chars@.subrange(0, n as int) == chars@);
    let (a, b) = trim_range(&chars, 0, n);
    if a == b {
        assert(summoner_pairs(summoners@) == Seq::<(Seq<char>, Seq<char>)>::empty());
        return Ok(summoners);
    }
    let ghost whole = entries_parsed(split(chars@, '|'));
    let mut start: usize = 0;
    loop
        invariant
            start <= n == chars@.len(),
            chars@ == input@,
            trimmed(input@).len() > 0,
            whole == entries_parsed(split(chars@, '|')),
            whole == with_read(
                summoner_pairs(summoners@),
                entries_parsed(split(chars@.skip(start as int), '|')),
            ),
        decreases n - start,
    {
        let ghost rest = chars@.skip(start as int);
        let ghost read = summoner_pairs(summoners@);
        let end = match find_first_in(&chars, start, n, '|') {
            Some(bar) => bar,
            None => n,
        };
        let ghost entry = chars@.subrange(start as int, end as int);
        proof {
            if end < n {
                let at = choose|i: int| is_first_at(rest, '|', i);
                assert(rest.take(at) == entry);
                assert(rest.skip(at + 1) == chars@.skip(end + 1));
                assert((seq![entry] + split(chars@.skip(end + 1), '|')).drop_first() == split(
                    chars@.skip(end + 1),
                    '|',
                ));
            } else {
                assert forall|i: int| !is_first_at(rest, '|', i) by {
                    if is_first_at(rest, '|', i) {
                        assert(rest.contains(rest[i]));
                    }
                }
            }
        }
        match parse_entry(&chars, start, end) {
            Err(wrong) => {
                return Err(ConfigError::InvalidSummonerFormat(wrong));
            },
            Ok(summoner) => {
                let ghost pair = (summoner.name@, summoner.tag@);
                summoners.push(summoner);
                proof {
                    assert(summoner_pairs(summoners@) == read.push(pair));
                    let after = entries_parsed(split(rest, '|').drop_first());
                    match after {
                        Ok(more) => {
                            assert(read + (seq![pair] + more) == read.push(pair) + more);
                        },
                        Err(_) => {},
                    }
                }
            },
        }
        if end == n {
            return Ok(summoners);
        }
        start = end + 1;
    }
}

/// The settings of the service.
#[derive(Debug)]
pub struct Config {
    pub riot_api_key: String,
    pub discord_bot_token: String,
    pub discord_bot_id: u64,
    pub discord_server_id: u64,
    pub discord_channel_id: u64,
    pub summoner_names: Vec<SummonerConfig>,
    pub database_url: String,
    pub default_region: String,
    pub polling_interval_secs: u64,
}

impl Clone for Config {
    fn clone(&self) -> (copy: Self)
        ensures
            copy.riot_api_key == self.riot_api_key,
            copy.discord_bot_token == self.discord_bot_token,
            copy.discord_bot_id == self.discord_bot_id,
            copy.discord_server_id == self.discord_server_id,
            copy.discord_channel_id == self.discord_channel_id,
            copy.summoner_names@ == self.summoner_names@,
            copy.database_url == self.database_url,
            copy.default_region == self.default_region,
            copy.polling_interval_secs == self.polling_interval_secs,
    {
        let mut summoner_names: Vec<SummonerConfig> = Vec::new();
        let mut i: usize = 0;
        while i < self.summoner_names.len()
            invariant
                i <= self.summoner_names@.len(),
                summoner_names@ == self.summoner_names@.take(i as int),
            decreases self.summoner_names@.len() - i,
        {
            summoner_names.push(self.summoner_names[i].clone());
            i = i + 1;
        }
        Config {
            riot_api_key: self.riot_api_key.clone(),
            discord_bot_token: self.discord_bot_token.clone(),
            discord_bot_id: self.discord_bot_id,
            discord_server_id: self.discord_server_id,
            discord_channel_id: self.discord_channel_id,
            summoner_names,
            database_url: self.database_url.clone(),
            default_region: self.default_region.clone(),
            polling_interval_secs: self.polling_interval_secs,
        }
    }
}

/// The settings as they are found in the environment, each one there or
/// not.
#[derive(Debug)]
pub struct EnvValues {
    pub riot_api_key: Option<String>,
    pub discord_bot_token: Option<String>,
    pub discord_bot_id: Option<String>,
    pub discord_server_id: Option<String>,
    pub discord_channel_id: Option<String>,
    pub summoner_names: Option<String>,
    pub database_url: Option<String>,
    pub default_region: Option<String>,
    pub polling_interval_secs: Option<String>,
}

/// What is wrong with the settings found.
pub enum Problem {
    /// The setting of this name is needed and is not there.
    Missing(Seq<char>),
    /// The setting of this name has this value, which is no number.
    NotANumber(Seq<char>, Seq<char>),
    /// The list of players is wrong in this way.
    Names(Seq<char>),
}

/// What is wrong with a setting that has to be there.
pub open spec fn needed(name: Seq<char>, value: Option<String>) -> Option<Problem> {
    match value {
        Some(_) => None,
        None => Some(Problem::Missing(name)),
    }
}

/// What is wrong with a setting that has to be there and to be a number.
pub open spec fn needed_number(name: Seq<char>, value: Option<String>) -> Option<Problem> {
    match value {
        Some(text) => match parsed_u64(text@) {
            Some(_) => None,
            None => Some(Problem::NotANumber(name, text@)),
        },
        None => Some(Problem::Missing(name)),
    }
}

/// What is wrong with the list of players.
pub open spec fn needed_names(value: Option<String>) -> Option<Problem> {
    match value {
        Some(text) => match summoner_names_parsed(text@) {
            Ok(_) => None,
            Err(wrong) => Some(Problem::Names(wrong)),
        },
        None => Some(Problem::Missing("SUMMONER_NAMES"@)),
    }
}

/// The first of two problems.
pub open spec fn or_else(first: Option<Problem>, second: Option<Problem>) -> Option<Problem> {
    match first {
        Some(_) => first,
        None => second,
    }
}

/// What is wrong with the settings found: the first thing that is, in the
/// order in which the settings are read. The region and the polling interval
/// are never wrong: each has a value to fall back on.
pub open spec fn problem(values: EnvValues) -> Option<Problem> {
    or_else(
        needed("RIOT_API_KEY"@, values.riot_api_key),
        or_else(
            needed("DISCORD_BOT_TOKEN"@, values.discord_bot_token),
            or_else(
                needed_number("DISCORD_BOT_ID"@, values.discord_bot_id),
                or_else(
                    needed_number("DISCORD_SERVER_ID"@, values.discord_server_id),
                    or_else(
                        needed_number("DISCORD_CHANNEL_ID"@, values.discord_channel_id),
                        or_else(
                            needed_names(values.summoner_names),
                            needed("DATABASE_URL"@, values.database_url),
                        ),
                    ),
                ),
            ),
        ),
    )
}

/// Whether the error tells of the problem.
pub open spec fn tells(error: ConfigError, problem: Problem) -> bool {
    match problem {
        Problem::Missing(name) => error matches ConfigError::MissingEnvVar(n) && n@ == name,
        Problem::NotANumber(name, value) => error matches ConfigError::InvalidValue(n, v) && n@
            == name && v@ == value,
        Problem::Names(wrong) => error matches ConfigError::InvalidSummonerFormat(w) && w@
            == wrong,
    }
}

/// The polling interval that the settings give: the number written, or 180
/// seconds where none is, or none that can be read.
pub open spec fn polling_interval(value: Option<String>) -> u64 {
    match value {
        Some(text) => match parsed_u64(text@) {
            Some(secs) => secs,
            None => 180,
        },
        None => 180,
    }
}

/// Whether the configuration is the one that the settings found amount to.
pub open spec fn amounts_to(values: EnvValues, config: Config) -> bool {
    &&& values.riot_api_key == Some(config.riot_api_key)
    &&& values.discord_bot_token == Some(config.discord_bot_token)
    &&& values.discord_bot_id matches Some(text) && parsed_u64(text@) == Some(
        config.discord_bot_id,
    )
    &&& values.discord_server_id matches Some(text) && parsed_u64(text@) == Some(
        config.discord_server_id,
    )
    &&& values.discord_channel_id matches Some(text) && parsed_u64(text@) == Some(
        config.discord_channel_id,
    )
    &&& values.summoner_names matches Some(text) && summoner_names_parsed(text@) == Ok::<
        Seq<(Seq<char>, Seq<char>)>,
        Seq<char>,
    >(summoner_pairs(config.summoner_names@))
    &&& values.database_url == Some(config.database_url)
    &&& match values.default_region {
        Some(region) => config.default_region == region,
        None => config.default_region@ == "euw1"@,
    }
    &&& config.polling_interval_secs == polling_interval(values.polling_interval_secs)
}

fn need(name: &str, value: Option<String>) -> (found: Result<String, ConfigError>)
    ensures
        match found {
            Ok(text) => value == Some(text),
            Err(error) => value is None && tells(error, Problem::Missing(name@)),
        },
{
    match value {
        Some(text) => Ok(text),
        None => Err(ConfigError::MissingEnvVar(String::from_str(name))),
    }
}

fn need_number(name: &str, value: Option<String>) -> (found: Result<u64, ConfigError>)
    ensures
        match found {
            Ok(number) => {
                &&& needed_number(name@, value) is None
                &&& value matches Some(text)
                &&& parsed_u64(text@) == Some(number)
            },
            Err(error) => needed_number(name@, value) matches Some(p) && tells(error, p),
        },
{
    match value {
        Some(text) => match parse_u64(text.as_str()) {
            Some(number) => Ok(number),
            None => Err(ConfigError::InvalidValue(String::from_str(name), text)),
        },
        None => Err(ConfigError::MissingEnvVar(String::from_str(name))),
    }
}

impl Config {
    /// The configuration that the settings found amount to, or the first
    /// thing that is wrong with them.
    pub fn from_values(values: EnvValues) -> (outcome: Result<Config, ConfigError>)
        ensures
            match outcome {
                Ok(config) => problem(values) is None && amounts_to(values, config),
                Err(error) => problem(values) matches Some(p) && tells(error, p),
            },
    {
        let riot_api_key = match need("RIOT_API_KEY", values.riot_api_key) {
            Ok(v) => v,
            Err(e) => {
                return Err(e);
            },
        };
        let discord_bot_token = match need("DISCORD_BOT_TOKEN", values.discord_bot_token) {
            Ok(v) => v,
            Err(e) => {
                return Err(e);
            },
        };
        let discord_bot_id = match need_number("DISCORD_BOT_ID", values.discord_bot_id) {
            Ok(v) => v,
            Err(e) => {
                return Err(e);
            },
        };
        let discord_server_id = match need_number("DISCORD_SERVER_ID", values.discord_server_id) {
            Ok(v) => v,
            Err(e) => {
                return Err(e);
            },
        };
        let discord_channel_id = match need_number(
            "DISCORD_CHANNEL_ID",
            values.discord_channel_id,
        ) {
            Ok(v) => v,
            Err(e) => {
                return Err(e);
            },
        };
        let summoner_names = match values.summoner_names {
            Some(text) => match parse_summoner_names(text.as_str()) {
                Ok(v) => v,
                Err(e) => {
                    return Err(e);
                },
            },
            None => {
                return Err(ConfigError::MissingEnvVar(String::from_str("SUMMONER_NAMES")));
            },
        };
        let database_url = match need("DATABASE_URL", values.database_url) {
            Ok(v) => v,
            Err(e) => {
                return Err(e);
            },
        };
        let default_region = match values.default_region {
            Some(region) => region,
            None => String::from_str("euw1"),
        };
        let polling_interval_secs = match values.polling_interval_secs {
            Some(text) => match parse_u64(text.as_str()) {
                Some(secs) => secs,
                None => 180,
            },
            None => 180,
        };
        Ok(
            Config {
                riot_api_key,
                discord_bot_token,
                discord_bot_id,
                discord_server_id,
                discord_channel_id,
                summoner_names,
                database_url,
                default_region,
                polling_interval_secs,
            },
        )
    }
}

} // verus!
