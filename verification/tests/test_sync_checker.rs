use squirrel::syncer::sync_checker::{
    bucket_window, diff_buckets, time_range_at, BucketCount, SyncChecker, SyncStats, TimeRange,
};
use squirrel::syncer::sync_config::{
    default_check_days, default_lag_hours, SyncConfig, TableMapping,
};

fn counts(list: &[(u32, u64)]) -> Vec<BucketCount> {
    list.iter().map(|&(bucket, unique_count)| BucketCount { bucket, unique_count }).collect()
}

fn config() -> SyncConfig {
    SyncConfig {
        local_url: "http://localhost:18123".to_string(),
        local_database: "default".to_string(),
        local_user: "reader".to_string(),
        local_password: "SECRET-REDACTED".to_string(),
        remote_url: "http://remote:28123".to_string(),
        remote_database: "default".to_string(),
        remote_user: "writer".to_string(),
        remote_password: "".to_string(),
        table_mappings: vec![
            TableMapping { local_table: "a".to_string(), remote_table: "a_copy".to_string() },
            TableMapping { local_table: "b".to_string(), remote_table: "b_copy".to_string() },
        ],
        check_days: default_check_days(),
        lag_hours: default_lag_hours(),
    }
}

#[test]
fn test_defaults() {
    assert_eq!(default_check_days(), 7);
    assert_eq!(default_lag_hours(), 2);
}

#[test]
fn test_reconcile_no_op() {
    let side = counts(&[(3600, 10), (7200, 4), (10800, 1)]);
    let checker = SyncChecker::new(config());
    let mut stats = checker.start();
    let hours = SyncChecker::compare_hourly(&side, &side.clone());
    assert!(hours.is_empty());
    stats.note_hours(hours.len());
    assert_eq!(stats.diff_hours, 0);
    assert_eq!(stats.synced_records, 0);
    assert!(stats.errors.is_empty());
    assert!(stats.is_clean());
    assert_eq!(stats.total_tables, 2);
}

#[test]
fn test_diff_buckets() {
    let local = counts(&[(7200, 5), (3600, 10), (14400, 2), (18000, 0)]);
    let remote = counts(&[(3600, 10), (7200, 6), (10800, 1), (21600, 0)]);
    // 7200 differs in count; 14400 and 18000 are only local; 10800 and 21600
    // only remote.
    assert_eq!(diff_buckets(&local, &remote), vec![7200, 10800, 14400, 18000, 21600]);
    assert_eq!(diff_buckets(&remote, &local), vec![7200, 10800, 14400, 18000, 21600]);
    assert_eq!(diff_buckets(&local, &vec![]), vec![3600, 7200, 14400, 18000]);
    assert_eq!(diff_buckets(&vec![], &vec![]), Vec::<u32>::new());
    // Of two answers for one bucket the first counts.
    assert_eq!(diff_buckets(&counts(&[(60, 1), (60, 2)]), &counts(&[(60, 1)])), Vec::<u32>::new());
    assert_eq!(diff_buckets(&counts(&[(60, 2), (60, 1)]), &counts(&[(60, 1)])), vec![60]);
}

#[test]
fn test_replay_settles_differences() {
    let local = counts(&[(60, 5), (120, 7), (180, 2)]);
    let remote = counts(&[(60, 5), (120, 6)]);
    let minutes = diff_buckets(&local, &remote);
    assert_eq!(minutes, vec![120, 180]);
    // After the replay the remote store counts what the local one counts.
    let after = counts(&[(60, 5), (120, 7), (180, 2)]);
    assert!(diff_buckets(&local, &after).is_empty());
}

#[test]
fn test_compare_and_sync_minutely_counts_minutes() {
    let mut stats = SyncStats::default();
    stats.diff_minutes = 4;
    let minutes = SyncChecker::compare_and_sync_minutely(
        &counts(&[(60, 1), (120, 2)]),
        &counts(&[(120, 3), (240, 1)]),
        &mut stats,
    );
    assert_eq!(minutes, vec![60, 120, 240]);
    assert_eq!(stats.diff_minutes, 7);
    assert!(SyncChecker::needs_replay(1));
    assert!(!SyncChecker::needs_replay(0));
}

#[test]
fn test_time_range() {
    let now = 1_700_000_000i64;
    assert_eq!(
        time_range_at(now, 2, 7),
        Some(TimeRange { start: now - 7200 - 7 * 86400, end: now - 7200 })
    );
    assert_eq!(time_range_at(0, 0, 0), Some(TimeRange { start: 0, end: 0 }));
    assert_eq!(time_range_at(i64::MIN + 10, 1, 0), None);
    assert_eq!(time_range_at(i64::MIN + 3600, 1, 1), None);
    let checker = SyncChecker::new(config());
    assert_eq!(checker.time_range_at(now), time_range_at(now, 2, 7));
    let range = checker.calculate_time_range().unwrap();
    assert_eq!(range.end - range.start, 7 * 86400);
    let wall = chrono::Utc::now().timestamp();
    assert!((wall - 7200 - range.end).abs() < 120);
}

#[test]
fn test_bucket_window() {
    assert_eq!(bucket_window(3600, 3600), Some((3600, 7200)));
    assert_eq!(bucket_window(u32::MAX - 60, 60), Some((u32::MAX - 60, u32::MAX)));
    assert_eq!(bucket_window(u32::MAX - 59, 60), None);
}

#[test]
fn test_queries() {
    assert_eq!(
        SyncChecker::hourly_query("trades", 100, 200),
        "SELECT toUnixTimestamp(toStartOfHour(toDateTime(timestamp))) as hour, uniqExact(tuple(signature, instruction_index)) as unique_count FROM trades WHERE timestamp >= 100 AND timestamp < 200 GROUP BY hour ORDER BY hour"
    );
    assert_eq!(
        SyncChecker::minutely_query("trades", 0, 4294967295),
        "SELECT toUnixTimestamp(toStartOfMinute(toDateTime(timestamp))) as minute, uniqExact(tuple(signature, instruction_index)) as unique_count FROM trades WHERE timestamp >= 0 AND timestamp < 4294967295 GROUP BY minute ORDER BY minute"
    );
}

#[test]
fn test_sync_minute_data() {
    let checker = SyncChecker::new(config());
    let sync = checker.sync_minute_data("trades", "trades_copy", 1_700_000_040).unwrap();
    assert_eq!((sync.start, sync.end), (1_700_000_040, 1_700_000_100));
    assert_eq!(
        sync.count_query,
        "SELECT count() as cnt FROM trades WHERE timestamp >= 1700000040 AND timestamp < 1700000100"
    );
    assert_eq!(
        sync.replay_query,
        "INSERT INTO trades_copy SELECT * FROM remote('localhost:18123', default, trades, 'reader', 'SECRET-REDACTED') WHERE timestamp >= 1700000040 AND timestamp < 1700000100"
    );
    assert!(checker.sync_minute_data("t", "t", u32::MAX - 10).is_none());
}

#[test]
fn test_host_is_the_address_without_its_scheme() {
    for (url, host) in [
        ("https://store:8443", "store:8443"),
        ("http://http://twice", "twice"),
        ("http://https://both", "both"),
        ("https://http://kept", "http://kept"),
        ("plain:9000", "plain:9000"),
        ("http://", ""),
    ] {
        let mut config = config();
        config.local_url = url.to_string();
        let expected = url.trim_start_matches("http://").trim_start_matches("https://");
        assert_eq!(expected, host);
        let sync = SyncChecker::new(config).sync_minute_data("t", "r", 0).unwrap();
        assert!(sync.replay_query.contains(&format!("remote('{}', default, t,", host)));
    }
}

#[test]
fn test_stats_take_notes() {
    let mut stats = SyncStats::default();
    stats.note_hours(2);
    stats.note_minutes(5);
    stats.note_synced(40);
    stats.note_synced(2);
    stats.note_table_error("a", "a_copy", "timeout");
    stats.note_hour_error("a", "a_copy", "2025-01-01 05:00:00", "refused");
    stats.note_minute_error(1700000040, "broken pipe");
    stats.note_error("other".to_string());
    assert_eq!((stats.diff_hours, stats.diff_minutes, stats.synced_records), (2, 5, 42));
    assert!(!stats.is_clean());
    assert_eq!(
        stats.errors,
        vec![
            "a -> a_copy: timeout",
            "a -> a_copy: hour 2025-01-01 05:00:00: refused",
            "minute 1700000040: broken pipe",
            "other"
        ]
    );
}

#[test]
fn test_clock_bounds() {
    assert_eq!(TimeRange { start: 100, end: 200 }.clock_bounds(), (100, 200));
    assert_eq!(TimeRange { start: -1, end: (1i64 << 32) + 5 }.clock_bounds(), (u32::MAX, 5));
}

#[test]
fn test_window_without_lag_and_days_is_always_given() {
    let mut settings = config();
    settings.lag_hours = 0;
    settings.check_days = 0;
    let checker = SyncChecker::new(settings);
    assert_eq!(checker.time_range_at(i64::MIN), Some(TimeRange { start: i64::MIN, end: i64::MIN }));
    assert_eq!(checker.time_range_at(i64::MAX), Some(TimeRange { start: i64::MAX, end: i64::MAX }));
    let range = checker.calculate_time_range().unwrap();
    assert_eq!(range.start, range.end);
    assert!((chrono::Utc::now().timestamp() - range.end).abs() < 120);
}
