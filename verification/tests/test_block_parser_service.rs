use squirrel::block_parser::block_parser_service::{
    BlockParserService, Config, ConfigError, ServiceStats,
};
use squirrel::block_parser::file_scanner::DirEntry;
use squirrel::common::async_pool::AsyncPool;
use squirrel::common::config_value::ConfigValue;
use squirrel::common::slot_meta::SlotMeta;

fn text(key: &str, value: &str) -> (String, ConfigValue) {
    (key.to_string(), ConfigValue::String(value.to_string()))
}

fn config(data_dir: &str, processed_dir: &str) -> Config {
    Config {
        data_dir: data_dir.to_string(),
        processed_dir: processed_dir.to_string(),
        scan_interval_seconds: 60,
        enable_watch: false,
        max_concurrent_clickhouse_tasks: 2,
    }
}

fn unit(prefix: &str) -> Vec<DirEntry> {
    vec![
        DirEntry { name: format!("{}.meta", prefix), is_file: true },
        DirEntry { name: format!("{}.bin", prefix), is_file: true },
    ]
}

#[test]
fn test_config_from_toml_value() {
    let value = ConfigValue::Table(vec![
        text("data_dir", "/tmp/data"),
        text("processed_dir", "/tmp/processed"),
        ("scan_interval_seconds".to_string(), ConfigValue::Integer(300)),
        ("enable_watch".to_string(), ConfigValue::Boolean(false)),
        ("max_concurrent_clickhouse_tasks".to_string(), ConfigValue::Integer(5)),
    ]);
    let config = Config::from_toml_value(&value).unwrap();

    assert_eq!(config.data_dir, "/tmp/data");
    assert_eq!(config.processed_dir, "/tmp/processed");
    assert_eq!(config.scan_interval_seconds, 300);
    assert_eq!(config.enable_watch, false);
    assert_eq!(config.max_concurrent_clickhouse_tasks, 5);
}

#[test]
fn test_config_with_defaults() {
    let value =
        ConfigValue::Table(vec![text("data_dir", "/tmp/data"), text("processed_dir", "/tmp/processed")]);
    let config = Config::from_toml_value(&value).unwrap();

    assert_eq!(config.data_dir, "/tmp/data");
    assert_eq!(config.processed_dir, "/tmp/processed");
    assert_eq!(config.scan_interval_seconds, 600);
    assert_eq!(config.enable_watch, true);
    assert_eq!(config.max_concurrent_clickhouse_tasks, 3);
}

#[test]
fn test_config_missing_or_misplaced_values() {
    let value = ConfigValue::Table(vec![text("processed_dir", "/p")]);
    let error = Config::from_toml_value(&value).unwrap_err();
    assert_eq!(error, ConfigError::MissingDataDir);
    assert_eq!(error.message(), "Missing 'data_dir' in config");

    let value = ConfigValue::Table(vec![text("data_dir", "/d")]);
    let error = Config::from_toml_value(&value).unwrap_err();
    assert_eq!(error, ConfigError::MissingProcessedDir);
    assert_eq!(error.message(), "Missing 'processed_dir' in config");

    let value = ConfigValue::Table(vec![
        ("data_dir".to_string(), ConfigValue::Integer(1)),
        text("processed_dir", "/p"),
    ]);
    assert_eq!(Config::from_toml_value(&value).unwrap_err(), ConfigError::MissingDataDir);
    assert_eq!(
        Config::from_toml_value(&ConfigValue::Integer(3)).unwrap_err(),
        ConfigError::MissingDataDir
    );

    // A value of the wrong kind counts as absent, and a negative number wraps.
    let value = ConfigValue::Table(vec![
        text("data_dir", "/d"),
        text("processed_dir", "/p"),
        text("scan_interval_seconds", "soon"),
        ("enable_watch".to_string(), ConfigValue::Other),
        ("max_concurrent_clickhouse_tasks".to_string(), ConfigValue::Integer(-1)),
    ]);
    let config = Config::from_toml_value(&value).unwrap();
    assert_eq!(config.scan_interval_seconds, 600);
    assert!(config.enable_watch);
    assert_eq!(config.max_concurrent_clickhouse_tasks, usize::MAX);
}

#[test]
fn test_service_creation() {
    let service = BlockParserService::new(&config("/t/data", "/t/processed"), &vec![]);
    let stats = service.get_stats();

    assert_eq!(stats.processed_count, 0);
    assert!(stats.processed_prefixes.is_empty());
    assert_eq!(service.tracker.log_path(), "/t/processed/processed_files.log");
    assert_eq!(service.scan_interval_seconds, 60);
    assert!(!service.enable_watch);
    assert_eq!(service.processor.max_concurrent_clickhouse_tasks, 2);
    assert_eq!(service.processor.batch_size, 1000);
}

#[test]
fn test_process_empty_directory() {
    let service = BlockParserService::new(&config("/t/data", "/t/processed"), &vec![]);
    assert_eq!(service.pending_files(&vec![]).len(), 0);
}

#[test]
fn test_process_single_file_pair() {
    let mut service = BlockParserService::new(&config("/t/data", "/t/processed"), &vec![]);
    let listing = unit("100_200");

    let pending = service.pending_files(&listing);
    assert_eq!(pending.len(), 1);
    assert_eq!(pending[0].meta_path, "/t/data/100_200.meta");

    // The unit's index is empty: there is nothing to read and nothing to write.
    let index: Vec<SlotMeta> = vec![];
    assert!(squirrel::block_parser::file_processor::FileProcessor::ranges_to_read(&index).is_empty());
    let mut pool = AsyncPool::new(2);
    assert!(service.processor.flush_all_batches(&mut pool).is_empty());
    assert!(pool.is_drained());
    assert!(service.complete(&pending[0].prefix, &AsyncPool::new(2)));

    let stats = service.get_stats();
    assert_eq!(stats.processed_count, 1);
    assert!(stats.processed_prefixes.contains(&"100_200".to_string()));
}

#[test]
fn test_skip_already_processed_files() {
    let mut service = BlockParserService::new(&config("/t/data", "/t/processed"), &vec![]);
    let listing = unit("300_400");

    let first = service.pending_files(&listing);
    assert_eq!(first.len(), 1);
    let line = service.completion_line(&first[0].prefix, &AsyncPool::new(2)).unwrap();
    assert!(!service.tracker.is_processed(&first[0].prefix));
    assert!(service.complete(&first[0].prefix, &AsyncPool::new(2)));

    let second = service.pending_files(&listing);
    assert_eq!(second.len(), 0);

    let stats = service.get_stats();
    assert_eq!(stats.processed_count, 1);

    // A service that starts from the log knows the unit too.
    let restarted = BlockParserService::new(&config("/t/data", "/t/processed"), &vec![line]);
    assert_eq!(restarted.pending_files(&listing).len(), 0);
}

#[test]
fn test_archive_reprocess() {
    let mut service = BlockParserService::new(&config("/t/data", "/t/processed"), &vec![]);
    let listing = unit("100_200");
    let pending = service.pending_files(&listing);
    assert_eq!(pending.len(), 1);
    assert!(!service.tracker.is_processed("100_200"));
    service.complete("100_200", &AsyncPool::new(3));
    assert!(service.tracker.is_processed("100_200"));
    assert_eq!(service.pending_files(&listing).len(), 0);
}

#[test]
fn test_unit_that_was_not_completed_stays_pending() {
    let mut service = BlockParserService::new(&config("/t/data", "/t/processed"), &vec![]);
    let mut listing = unit("100_200");
    listing.extend(unit("300_400"));
    let pending = service.pending_files(&listing);
    assert_eq!(pending.len(), 2);
    service.complete(&pending[0].prefix, &AsyncPool::new(3));
    let again = service.pending_files(&listing);
    assert_eq!(again.len(), 1);
    assert_eq!(again[0].prefix, "100_200");
    assert!(!service.tracker.is_processed("100_200"));
}

#[test]
fn test_service_stats() {
    let mut service = BlockParserService::new(&config("/t/data", "/t/processed"), &vec![]);
    let mut listing = Vec::new();
    for i in 1..=3 {
        listing.extend(unit(&format!("{}_{}00", i * 100, i * 100 + 1)));
    }
    let pending = service.pending_files(&listing);
    assert_eq!(pending.len(), 3);
    assert_eq!(pending[0].prefix, "300_30100");
    for pair in &pending {
        service.complete(&pair.prefix, &AsyncPool::new(3));
    }
    let stats = service.get_stats();
    assert_eq!(stats.processed_count, 3);
    let (shown, left_out) = stats.recent();
    assert_eq!(shown.len(), 3);
    assert_eq!(left_out, 0);
}

#[test]
fn test_stats_summary_names_the_last_ten() {
    let prefixes: Vec<String> = (0..13).map(|i| format!("p{:02}", i)).collect();
    let stats = ServiceStats { processed_count: 13, processed_prefixes: prefixes.clone() };
    let (shown, left_out) = stats.recent();
    assert_eq!(left_out, 3);
    assert_eq!(shown, prefixes[3..].to_vec());
    let stats = ServiceStats { processed_count: 10, processed_prefixes: prefixes[..10].to_vec() };
    assert_eq!(stats.recent(), (prefixes[..10].to_vec(), 0));
    let stats = ServiceStats { processed_count: 0, processed_prefixes: vec![] };
    assert_eq!(stats.recent(), (vec![], 0));
}

#[test]
fn test_cleanup_processed_log() {
    let service = BlockParserService::new(&config("/t/data", "/t/processed"), &vec![]);
    let log = vec!["t1,a,completed".to_string(), "t2,a,completed".to_string()];
    assert_eq!(service.cleanup_processed_log(&log), vec!["t2,a,completed".to_string()]);
}

#[test]
fn test_nothing_is_recorded_while_inserts_run() {
    let mut service = BlockParserService::new(&config("/t/data", "/t/processed"), &vec![]);
    let mut pool = AsyncPool::new(1);
    pool.submit();
    pool.submit();
    assert_eq!(service.completion_line("100_200", &pool), None);
    assert!(!service.complete("100_200", &pool));
    assert!(pool.start_next());
    assert_eq!(service.completion_line("100_200", &pool), None);
    assert!(!service.complete("100_200", &pool));
    pool.complete();
    assert!(pool.start_next());
    assert!(!service.complete("100_200", &pool));
    assert!(!service.tracker.is_processed("100_200"));
    assert_eq!(service.pending_files(&unit("100_200")).len(), 1);
    pool.complete();
    let line = service.completion_line("100_200", &pool).unwrap();
    assert!(line.ends_with(",100_200,completed"));
    // The line alone changes nothing: the unit is noted once it is written.
    assert!(!service.tracker.is_processed("100_200"));
    assert!(service.complete("100_200", &pool));
    assert!(service.tracker.is_processed("100_200"));
}
