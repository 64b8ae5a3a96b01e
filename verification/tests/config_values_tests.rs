use sfg_bot::config::{is_valid_summoner_name, is_valid_tag, parse_summoner_names, Config, ConfigError, EnvValues};

fn values() -> EnvValues {
    EnvValues {
        riot_api_key: Some("RGAPI".to_string()),
        discord_bot_token: Some("token".to_string()),
        discord_bot_id: Some("11".to_string()),
        discord_server_id: Some("22".to_string()),
        discord_channel_id: Some("33".to_string()),
        summoner_names: Some("Catory#6433|Another Player#EUW".to_string()),
        database_url: Some("postgres://localhost/db".to_string()),
        default_region: Some("na1".to_string()),
        polling_interval_secs: Some("60".to_string()),
    }
}

#[test]
fn settings_amount_to_a_configuration() {
    let config = Config::from_values(values()).unwrap();
    assert_eq!(config.riot_api_key, "RGAPI");
    assert_eq!(config.discord_bot_token, "token");
    assert_eq!(config.discord_bot_id, 11);
    assert_eq!(config.discord_server_id, 22);
    assert_eq!(config.discord_channel_id, 33);
    assert_eq!(config.summoner_names.len(), 2);
    assert_eq!(config.summoner_names[1].name, "Another Player");
    assert_eq!(config.summoner_names[1].tag, "EUW");
    assert_eq!(config.database_url, "postgres://localhost/db");
    assert_eq!(config.default_region, "na1");
    assert_eq!(config.polling_interval_secs, 60);
    let copy = config.clone();
    assert_eq!(copy.summoner_names[0].name, "Catory");
    assert_eq!(copy.discord_channel_id, 33);
    assert!(format!("{:?}", copy).contains("Config"));
}

#[test]
fn region_and_interval_fall_back() {
    let mut given = values();
    given.default_region = None;
    given.polling_interval_secs = None;
    let config = Config::from_values(given).unwrap();
    assert_eq!(config.default_region, "euw1");
    assert_eq!(config.polling_interval_secs, 180);

    for odd in ["", "soon", "-5", "1.5", "18446744073709551616"] {
        let mut given = values();
        given.polling_interval_secs = Some(odd.to_string());
        assert_eq!(Config::from_values(given).unwrap().polling_interval_secs, 180, "{:?}", odd);
    }
    let mut given = values();
    given.polling_interval_secs = Some("+0".to_string());
    assert_eq!(Config::from_values(given).unwrap().polling_interval_secs, 0);
}

#[test]
fn missing_settings_are_told_in_the_order_they_are_read() {
    let missing = |change: &dyn Fn(&mut EnvValues)| {
        let mut given = values();
        change(&mut given);
        match Config::from_values(given) {
            Err(ConfigError::MissingEnvVar(name)) => name,
            other => panic!("unexpected outcome {:?}", other),
        }
    };
    assert_eq!(missing(&|v| v.riot_api_key = None), "RIOT_API_KEY");
    assert_eq!(missing(&|v| v.discord_bot_token = None), "DISCORD_BOT_TOKEN");
    assert_eq!(missing(&|v| v.discord_bot_id = None), "DISCORD_BOT_ID");
    assert_eq!(missing(&|v| v.discord_server_id = None), "DISCORD_SERVER_ID");
    assert_eq!(missing(&|v| v.discord_channel_id = None), "DISCORD_CHANNEL_ID");
    assert_eq!(missing(&|v| v.summoner_names = None), "SUMMONER_NAMES");
    assert_eq!(missing(&|v| v.database_url = None), "DATABASE_URL");
    assert_eq!(
        missing(&|v| {
            v.database_url = None;
            v.discord_bot_token = None;
            v.discord_bot_id = Some("x".to_string());
        }),
        "DISCORD_BOT_TOKEN"
    );
}

#[test]
fn settings_that_are_no_numbers_are_told() {
    let mut given = values();
    given.discord_server_id = Some("abc".to_string());
    given.database_url = None;
    match Config::from_values(given) {
        Err(ConfigError::InvalidValue(name, value)) => {
            assert_eq!(name, "DISCORD_SERVER_ID");
            assert_eq!(value, "abc");
        }
        other => panic!("unexpected outcome {:?}", other),
    }
    let mut given = values();
    given.discord_channel_id = Some("-3".to_string());
    let error = Config::from_values(given).unwrap_err();
    assert_eq!(error.message(), "Invalid environment variable value for DISCORD_CHANNEL_ID: -3");
}

#[test]
fn wrong_list_of_players_is_told() {
    let mut given = values();
    given.summoner_names = Some("Catory#6433|nohash".to_string());
    match Config::from_values(given) {
        Err(ConfigError::InvalidSummonerFormat(wrong)) => assert_eq!(wrong, "nohash"),
        other => panic!("unexpected outcome {:?}", other),
    }
    let mut given = values();
    given.summoner_names = Some("  ".to_string());
    assert!(Config::from_values(given).unwrap().summoner_names.is_empty());
}

#[test]
fn error_messages_are_exact() {
    assert_eq!(
        ConfigError::MissingEnvVar("X".to_string()).message(),
        "Missing required environment variable: X"
    );
    assert_eq!(
        ConfigError::InvalidValue("X".to_string(), "y".to_string()).message(),
        "Invalid environment variable value for X: y"
    );
    assert_eq!(
        ConfigError::InvalidSummonerFormat("Invalid tag: !".to_string()).message(),
        "Invalid summoner name format: Invalid tag: !"
    );
}

fn wrong(input: &str) -> String {
    match parse_summoner_names(input) {
        Err(ConfigError::InvalidSummonerFormat(wrong)) => wrong,
        other => panic!("unexpected outcome for {:?}: {:?}", input, other),
    }
}

fn pairs(input: &str) -> Vec<(String, String)> {
    parse_summoner_names(input).unwrap().into_iter().map(|s| (s.name, s.tag)).collect()
}

#[test]
fn what_is_wrong_with_a_list() {
    assert_eq!(wrong("InvalidName"), "InvalidName");
    assert_eq!(wrong("  spaced out  "), "spaced out");
    assert_eq!(wrong("#TAG"), "#TAG");
    assert_eq!(wrong("Name#"), "Name#");
    assert_eq!(wrong(" Name #  "), "Name #");
    assert_eq!(wrong("Bad@Name#TAG"), "Invalid name: Bad@Name");
    assert_eq!(wrong("GoodName#BAD!"), "Invalid tag: BAD!");
    assert_eq!(wrong("Player#TAG#1"), "Invalid name: Player#TAG");
    assert_eq!(wrong("ABCDEFGHIJKLMNOPQRSTUVWXY#TAG"), "Invalid name: ABCDEFGHIJKLMNOPQRSTUVWXY");
    assert_eq!(wrong("Player#ABCDEF"), "Invalid tag: ABCDEF");
    assert_eq!(wrong("Player#T G"), "Invalid tag: T G");
    // The first entry that is wrong is the one told of.
    assert_eq!(wrong("A#1|B@#2|C#!"), "Invalid name: B@");
    assert_eq!(wrong("A#1||C#3"), "");
    assert_eq!(wrong("A#1|"), "");
    assert_eq!(wrong("|A#1"), "");
    assert_eq!(wrong("|"), "");
}

#[test]
fn what_a_list_says() {
    assert_eq!(pairs(""), vec![]);
    assert_eq!(pairs(" \t\n"), vec![]);
    assert_eq!(pairs("A#1"), vec![("A".to_string(), "1".to_string())]);
    assert_eq!(
        pairs(" A B # t1 |\tC-D_e#X\n"),
        vec![("A B".to_string(), "t1".to_string()), ("C-D_e".to_string(), "X".to_string())]
    );
    assert_eq!(pairs("Ünï cödé#ÄÖ"), vec![("Ünï cödé".to_string(), "ÄÖ".to_string())]);
}

#[test]
fn lengths_are_counted_in_bytes() {
    // Twelve two-byte letters are 24 bytes; thirteen are 26.
    assert!(is_valid_summoner_name("éééééééééééé"));
    assert!(!is_valid_summoner_name("ééééééééééééé"));
    assert!(is_valid_summoner_name("ABCDEFGHIJKLMNOPQRSTUVWX"));
    assert!(!is_valid_summoner_name("ABCDEFGHIJKLMNOPQRSTUVWXY"));
    assert!(is_valid_tag("éé1"));
    assert!(!is_valid_tag("ééé"));
    // One three-byte letter and two bytes more fit a tag; two such letters do not.
    assert!(is_valid_tag("名ab"));
    assert!(!is_valid_tag("名前"));
    assert_eq!(wrong("名前#タグ"), "Invalid tag: タグ");
}

#[test]
fn what_may_stand_in_names_and_tags() {
    assert!(is_valid_summoner_name("a B-c_9"));
    assert!(is_valid_summoner_name(" "));
    assert!(!is_valid_summoner_name(""));
    assert!(!is_valid_summoner_name("a.b"));
    assert!(!is_valid_summoner_name("a#b"));
    assert!(!is_valid_summoner_name("a\tb"));
    assert!(is_valid_summoner_name("٣"));
    assert!(is_valid_tag("EuW1"));
    assert!(!is_valid_tag(""));
    assert!(!is_valid_tag("E W"));
    assert!(!is_valid_tag("E-W"));
    assert!(!is_valid_tag("E_W"));
}
