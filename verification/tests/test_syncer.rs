use squirrel::clickhouse_util::clickhouse_events::EventKind;
use squirrel::syncer::config::{
    Date, LocalConfig, NameMap, PipelineError, RemoteConfig, RemoteServerConfig,
};
use squirrel::syncer::extractor::{day_window, event_kind_named, ClickHouseExtractor, DayWindow};
use squirrel::syncer::importer::ClickHouseImporter;
use squirrel::syncer::parquet_helper::{BatchesRead, ParquetHelper};
use squirrel::syncer::pipeline::{ImportTotals, LocalPipeline, RemotePipeline};

fn date(year: i32, month: u32, day: u32) -> Date {
    Date { days: chrono::NaiveDate::from_ymd_opt(year, month, day).unwrap().to_epoch_days() }
}

fn map(entries: &[(&str, &str)]) -> NameMap {
    NameMap { entries: entries.iter().map(|(k, v)| (k.to_string(), v.to_string())).collect() }
}

fn server() -> RemoteServerConfig {
    RemoteServerConfig {
        address: "localhost".to_string(),
        port: 22,
        username: "test".to_string(),
        private_key_path: "/tmp/key".to_string(),
        remote_path: "/tmp/remote".to_string(),
    }
}

#[test]
fn test_daily_request_window_and_query() {
    let day = date(2025, 1, 15);
    let request = ClickHouseExtractor::new()
        .extract_daily_events("pumpfun_trade_event_v2", "PumpfunTradeEventV2", day)
        .unwrap();
    let start = chrono::NaiveDate::from_ymd_opt(2025, 1, 15)
        .unwrap()
        .and_hms_opt(0, 0, 0)
        .unwrap()
        .and_utc()
        .timestamp() as u32;
    assert_eq!(request.window, DayWindow { start, end: start + 86400 });
    assert_eq!(request.window.start, 1736899200);
    assert_eq!(request.kind, EventKind::Trade);
    assert_eq!(
        request.query,
        "SELECT * FROM pumpfun_trade_event_v2 WHERE timestamp >= 1736899200 AND timestamp < 1736985600 ORDER BY slot, transaction_index, instruction_index"
    );
}

#[test]
fn test_day_boundaries() {
    let window = day_window(Date { days: 3 }).unwrap();
    assert_eq!((window.start, window.end), (3 * 86400, 4 * 86400));
    assert!(window.contains(3 * 86400));
    assert!(window.contains(4 * 86400 - 1));
    assert!(!window.contains(4 * 86400));
    assert!(!window.contains(3 * 86400 - 1));
    assert_eq!(day_window(Date { days: 0 }), Some(DayWindow { start: 0, end: 86400 }));
    assert_eq!(day_window(Date { days: -1 }), None);
    assert_eq!(
        day_window(Date { days: 49709 }),
        Some(DayWindow { start: 4294857600, end: 4294944000 })
    );
    assert_eq!(day_window(Date { days: 49710 }), None);
}

#[test]
fn test_extractor_test_invalid_event_type() {
    let result = ClickHouseExtractor::new().extract_daily_events(
        "some_table",
        "InvalidEventType",
        date(2025, 10, 1),
    );
    assert!(result.is_err(), "Should return error for invalid event type");
    let error = result.unwrap_err();
    assert_eq!(error, PipelineError::UnknownEventType("InvalidEventType".to_string()));
    assert!(error.message().contains("Unknown event type"));
    assert_eq!(error.message(), "Unknown event type: InvalidEventType");
}

#[test]
fn test_extractor_rejects_days_out_of_reach_first() {
    let extractor = ClickHouseExtractor::default();
    let error = extractor.extract_daily_events("t", "Nothing", Date { days: -5 }).unwrap_err();
    assert_eq!(error, PipelineError::InvalidDate);
    assert_eq!(error.message(), "Invalid date");
}

#[test]
fn test_importer_test_invalid_event_type() {
    let importer = ClickHouseImporter::new();
    let error = importer.row_kind("InvalidEventType").unwrap_err();
    assert!(error.message().contains("Unknown event type"));
    assert_eq!(importer.row_kind("PumpfunAmmSellEventV2"), Ok(EventKind::AmmSell));
}

#[test]
fn test_event_type_names() {
    let all = [
        ("PumpfunTradeEventV2", EventKind::Trade),
        ("PumpfunCreateEventV2", EventKind::Create),
        ("PumpfunMigrateEventV2", EventKind::Migrate),
        ("PumpfunAmmBuyEventV2", EventKind::AmmBuy),
        ("PumpfunAmmSellEventV2", EventKind::AmmSell),
        ("PumpfunAmmCreatePoolEventV2", EventKind::AmmCreatePool),
        ("PumpfunAmmDepositEventV2", EventKind::AmmDeposit),
        ("PumpfunAmmWithdrawEventV2", EventKind::AmmWithdraw),
    ];
    for (name, kind) in all {
        assert_eq!(event_kind_named(name), Ok(kind));
    }
    assert!(event_kind_named("pumpfuntradeeventv2").is_err());
    assert!(event_kind_named("PumpFunTradeEvent").is_err());
}

#[test]
fn test_daily_file_name_and_path() {
    let helper = ParquetHelper::new();
    let file = helper.daily_file("test_table", date(2025, 1, 15), "/out").unwrap();
    assert_eq!(file.file_name, "test_table_2025-01-15.parquet");
    assert_eq!(file.table_dir, "/out/test_table");
    assert_eq!(file.file_path, "/out/test_table/test_table_2025-01-15.parquet");
}

#[test]
fn test_daily_file_lies_in_the_table_directory() {
    let helper = ParquetHelper::default();
    let file = helper.daily_file("pumpfun_trade_event_v2", date(2025, 2, 1), "/data/exports/").unwrap();
    assert_eq!(file.table_dir, "/data/exports/pumpfun_trade_event_v2");
    assert_eq!(file.file_name, "pumpfun_trade_event_v2_2025-02-01.parquet");
    assert_eq!(
        file.file_path,
        "/data/exports/pumpfun_trade_event_v2/pumpfun_trade_event_v2_2025-02-01.parquet"
    );
}

#[test]
fn test_daily_file_names_of_several_days() {
    let helper = ParquetHelper::new();
    let names: Vec<String> = [date(2025, 1, 1), date(2025, 1, 2), date(2024, 12, 31), date(1970, 1, 1)]
        .iter()
        .map(|d| helper.daily_file("daily_data", *d, "/o").unwrap().file_name)
        .collect();
    assert_eq!(
        names,
        vec![
            "daily_data_2025-01-01.parquet",
            "daily_data_2025-01-02.parquet",
            "daily_data_2024-12-31.parquet",
            "daily_data_1970-01-01.parquet"
        ]
    );
    assert!(helper.daily_file("t", Date { days: i32::MAX }, "/o").is_none());
}

#[test]
fn test_what_to_make_of_the_batches_read() {
    assert_eq!(ParquetHelper::batches_read(0), BatchesRead::Empty);
    assert_eq!(ParquetHelper::batches_read(1), BatchesRead::Single);
    assert_eq!(ParquetHelper::batches_read(2), BatchesRead::Several);
    assert_eq!(ParquetHelper::batches_read(usize::MAX), BatchesRead::Several);
}

fn local_config(tables: &[&str], mappings: &[(&str, &str)], start: Date) -> LocalConfig {
    LocalConfig {
        tables: tables.iter().map(|t| t.to_string()).collect(),
        table_event_mappings: map(mappings),
        start_time: start,
        local_storage_path: "/tmp/fake".to_string(),
        remote_server: server(),
    }
}

#[test]
fn test_local_pipeline_config_validation() {
    let pipeline = LocalPipeline::new(local_config(&["test_table"], &[], date(2025, 10, 22)));
    let result = pipeline.table_plan(0, date(2025, 10, 23));
    assert!(result.is_err(), "Should fail when event type mapping is missing");
    let error = result.unwrap_err();
    assert!(error.message().contains("Event type not found"));
    assert_eq!(error.message(), "Event type not found for table: test_table");
}

#[test]
fn test_table_plan_for_a_single_day() {
    let day = date(2025, 10, 22);
    let pipeline = LocalPipeline::new(local_config(
        &["pumpfun_trade_event_v2"],
        &[("pumpfun_trade_event_v2", "PumpfunTradeEventV2")],
        day,
    ));
    let plan = pipeline.table_plan(0, day).unwrap();
    assert_eq!(plan.table, "pumpfun_trade_event_v2");
    assert_eq!(plan.event_type, "PumpfunTradeEventV2");
    assert_eq!(plan.table_dir, "/tmp/fake/pumpfun_trade_event_v2");
    assert_eq!(plan.days, vec![day]);
    assert_eq!(pipeline.transport.max_retries, 5);
}

#[test]
fn test_local_pipeline_date_progression() {
    let start = date(2025, 10, 1);
    let today = date(2025, 10, 4);
    let days = LocalPipeline::days_to_export(start, today);
    assert_eq!(days.len(), 4);
    assert_eq!(days, vec![start, date(2025, 10, 2), date(2025, 10, 3), today]);
    assert!(LocalPipeline::days_to_export(today, start).is_empty());
    assert_eq!(LocalPipeline::days_to_export(start, start), vec![start]);
    let over_new_year = LocalPipeline::days_to_export(date(2024, 12, 30), date(2025, 1, 2));
    assert_eq!(over_new_year.len(), 4);
    assert_eq!(over_new_year[3], date(2025, 1, 2));
    assert_eq!(
        LocalPipeline::days_to_export(Date { days: i32::MAX - 1 }, Date { days: i32::MAX }).len(),
        2
    );
    let now = LocalPipeline::today();
    assert_eq!(now.days, chrono::Utc::now().date_naive().to_epoch_days());
}

fn remote_config(imports: &[(&str, &str)], kinds: &[(&str, &str)]) -> RemoteConfig {
    RemoteConfig {
        remote_storage_path: "/remote/data/imports".to_string(),
        import_mappings: map(imports),
        table_event_mappings: map(kinds),
    }
}

#[test]
fn test_remote_pipeline_missing_event_type() {
    let pipeline =
        RemotePipeline::new(remote_config(&[("test_folder", "test_table")], &[]));
    let result = pipeline.folder_plan(0);
    assert!(result.is_err(), "Should fail when event type mapping is missing");
    let error = result.unwrap_err();
    assert!(error.message().contains("Event type not found"));
    assert_eq!(error.message(), "Event type not found for folder: test_folder");
}

#[test]
fn test_remote_pipeline_folder_plan() {
    let pipeline = RemotePipeline::new(remote_config(
        &[("source_a", "target_a"), ("source_b", "target_b")],
        &[("source_b", "EventTypeB"), ("source_a", "EventTypeA"), ("source_a", "Shadowed")],
    ));
    let plan = pipeline.folder_plan(1).unwrap();
    assert_eq!(plan.source_folder, "source_b");
    assert_eq!(plan.target_table, "target_b");
    assert_eq!(plan.event_type, "EventTypeB");
    assert_eq!(plan.folder_path, "/remote/data/imports/source_b");
    assert_eq!(pipeline.folder_plan(0).unwrap().event_type, "EventTypeA");
}

#[test]
fn test_parquet_files_of_a_folder_without_any() {
    assert!(RemotePipeline::parquet_files(&vec![]).is_empty());
    let others = vec!["notes.txt".to_string(), ".parquet".to_string(), "parquet".to_string()];
    assert!(RemotePipeline::parquet_files(&others).is_empty());
}

#[test]
fn test_parquet_files_in_the_order_of_their_names() {
    let names: Vec<String> = [
        "t_2025-10-03.parquet",
        "t_2025-10-01.parquet",
        "readme.md",
        "t_2025-10-02.parquet",
        "t_2025-09-30.parquet.tmp",
        "t_2025-09-30.parquet",
        "..parquet",
        "T.PARQUET",
    ]
    .iter()
    .map(|n| n.to_string())
    .collect();
    let files = RemotePipeline::parquet_files(&names);
    let mut expected: Vec<String> = names
        .iter()
        .filter(|n| {
            std::path::Path::new(n).extension().and_then(|e| e.to_str()).map(|e| e == "parquet").unwrap_or(false)
        })
        .cloned()
        .collect();
    expected.sort();
    assert_eq!(files, expected);
    assert_eq!(
        files,
        vec![
            "..parquet",
            "t_2025-09-30.parquet",
            "t_2025-10-01.parquet",
            "t_2025-10-02.parquet",
            "t_2025-10-03.parquet"
        ]
    );
}

#[test]
fn test_import_totals() {
    let mut totals = ImportTotals::new();
    totals.add_file(10);
    totals.add_file(0);
    totals.add_file(5);
    assert_eq!(totals, ImportTotals { files: 3, rows: 15 });
}

#[test]
fn test_remote_config_empty_mappings() {
    let config = remote_config(&[], &[]);
    assert!(config.import_mappings.is_empty());
    assert!(config.table_event_mappings.is_empty());
    assert_eq!(config.import_mappings.len(), 0);
    assert_eq!(NameMap::new().get("x"), None);
    assert_eq!(map(&[("a", "1"), ("b", "2"), ("a", "3")]).get("a"), Some("1"));
}
