use squirrel::mode::Mode;
use squirrel::syncer::sync_config::{
    parse_mapping, FlagError, SyncConfig, SyncFlags, TableMapping,
};

fn flags(maps: &[&str]) -> SyncFlags {
    SyncFlags {
        local_url: Some("http://localhost:18123".to_string()),
        local_database: None,
        local_user: None,
        local_password: None,
        remote_url: Some("http://remote-host:28123".to_string()),
        remote_database: None,
        remote_user: None,
        remote_password: None,
        check_days: None,
        lag_hours: None,
        table_mappings: maps.iter().map(|m| m.to_string()).collect(),
    }
}

fn mapping(local: &str, remote: &str) -> TableMapping {
    TableMapping { local_table: local.to_string(), remote_table: remote.to_string() }
}

#[test]
fn test_modes() {
    assert_eq!(Mode::parse("block_parser"), Some(Mode::BlockParser));
    assert_eq!(Mode::parse("transaction_subscriber"), Some(Mode::TransactionSubscriber));
    assert_eq!(Mode::parse("local"), Some(Mode::Local));
    assert_eq!(Mode::parse("remote"), Some(Mode::Remote));
    assert_eq!(Mode::parse("sync-check"), Some(Mode::SyncCheck));
    assert_eq!(Mode::parse("sync_check"), None);
    assert_eq!(Mode::parse("Local"), None);
    assert_eq!(Mode::parse(""), None);
    assert!(Mode::Local.needs_config_file());
    assert!(Mode::BlockParser.needs_config_file());
    assert!(!Mode::SyncCheck.needs_config_file());
}

#[test]
fn test_parse_mapping() {
    assert_eq!(parse_mapping("a:b"), Some(mapping("a", "b")));
    assert_eq!(parse_mapping("a:b:c"), Some(mapping("a", "b:c")));
    assert_eq!(parse_mapping(":b"), Some(mapping("", "b")));
    assert_eq!(parse_mapping("a:"), Some(mapping("a", "")));
    assert_eq!(parse_mapping(":"), Some(mapping("", "")));
    assert_eq!(parse_mapping("ab"), None);
    assert_eq!(parse_mapping(""), None);
    for entry in ["x:y", "no colon", "ü:é:z", "::"] {
        let expected = entry.split_once(':').map(|(l, r)| mapping(l, r));
        assert_eq!(parse_mapping(entry), expected);
    }
}

#[test]
fn test_settings_from_flags_with_defaults() {
    let config = SyncConfig::from_flags(flags(&["trades:trades_copy"])).unwrap();
    assert_eq!(config.local_url, "http://localhost:18123");
    assert_eq!(config.remote_url, "http://remote-host:28123");
    assert_eq!(config.local_database, "default");
    assert_eq!(config.local_user, "default");
    assert_eq!(config.local_password, "");
    assert_eq!(config.remote_database, "default");
    assert_eq!(config.remote_user, "default");
    assert_eq!(config.remote_password, "");
    assert_eq!(config.check_days, 7);
    assert_eq!(config.lag_hours, 2);
    assert_eq!(config.table_mappings, vec![mapping("trades", "trades_copy")]);
}

#[test]
fn test_settings_from_flags_as_given() {
    let mut given = flags(&["a:1", "b:2", "a:3", "c:4", "b:5"]);
    given.local_database = Some("ld".to_string());
    given.local_user = Some("lu".to_string());
    given.local_password = Some("SECRET-REDACTED".to_string());
    given.remote_database = Some("rd".to_string());
    given.remote_user = Some("ru".to_string());
    given.remote_password = Some("rp".to_string());
    given.check_days = Some(0);
    given.lag_hours = Some(48);
    let config = SyncConfig::from_flags(given).unwrap();
    assert_eq!(
        (config.local_database.as_str(), config.local_user.as_str(), config.local_password.as_str()),
        ("ld", "lu", "SECRET-REDACTED")
    );
    assert_eq!(
        (config.remote_database.as_str(), config.remote_user.as_str(), config.remote_password.as_str()),
        ("rd", "ru", "rp")
    );
    assert_eq!((config.check_days, config.lag_hours), (0, 48));
    // A later pair for a local table takes the place of the earlier one.
    assert_eq!(config.table_mappings, vec![mapping("a", "3"), mapping("b", "5"), mapping("c", "4")]);
}

#[test]
fn test_flag_errors_in_order() {
    let mut given = flags(&["bad"]);
    given.local_url = None;
    given.remote_url = None;
    let error = SyncConfig::from_flags(given).unwrap_err();
    assert_eq!(error, FlagError::MissingLocalUrl);
    assert_eq!(error.message(), "--local-url is required when --config is not provided");

    let mut given = flags(&["bad"]);
    given.remote_url = None;
    let error = SyncConfig::from_flags(given).unwrap_err();
    assert_eq!(error, FlagError::MissingRemoteUrl);
    assert_eq!(error.message(), "--remote-url is required when --config is not provided");

    let error = SyncConfig::from_flags(flags(&["a:b", "first bad", "c:d", "second"])).unwrap_err();
    assert_eq!(error, FlagError::InvalidMap("first bad".to_string()));
    assert_eq!(error.message(), "Invalid --map entry: first bad. Use local:remote");
    assert!(SyncConfig::from_flags(flags(&[])).unwrap().table_mappings.is_empty());
}
