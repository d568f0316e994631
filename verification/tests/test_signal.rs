use squirrel::clickhouse_util::insert_task::TableNames;
use squirrel::common::config_value::ConfigValue;
use squirrel::common::transaction::{Instruction, MigrationEvent, Parsed, Transaction};
use squirrel::misaka_network::client::{
    consumer_name, create_telepath, emit_subject, stream_name, AckPolicy, MisakaSignal,
    TelepathConfig,
};
use squirrel::misaka_signal::config::Config;
use squirrel::misaka_signal::event_bundle::EventBundle;
use squirrel::misaka_signal::signal_service::{
    authority_level_named, average, AuthorityLevel, PeriodAverages, PeriodTotals, SignalService,
};
use squirrel::transaction_subscriber::transaction_subscriber_service::{
    Config as SubscriberConfig, ConfigError,
};

fn config(level: &str) -> Config {
    Config {
        nats_url: "nats://localhost:4222".to_string(),
        topic: "transactions".to_string(),
        grpc_server_url: "http://localhost:50051".to_string(),
        telepath_name: "test_demo".to_string(),
        sender_agent: "test_agent".to_string(),
        authority_level: level.to_string(),
    }
}

fn migration_tx(pairs: usize) -> Transaction {
    let mut instructions = Vec::new();
    for _ in 0..pairs {
        instructions
            .push(Instruction { type_tag: "Migrate".to_string(), parsed: Some(Parsed::PumpfunMigrate) });
        instructions.push(Instruction {
            type_tag: "PumpFunMigrateEvent".to_string(),
            parsed: Some(Parsed::PumpfunMigrationEvent(MigrationEvent {
                user: [1u8; 32],
                mint: [2u8; 32],
                mint_amount: 1,
                sol_amount: 2,
                pool_migration_fee: 3,
                bonding_curve: [3u8; 32],
                timestamp: -1,
                pool: [4u8; 32],
            })),
        });
    }
    Transaction { signature: [0u8; 64], slot: 1, index: u64::MAX, instructions }
}

#[test]
fn test_telepath_defaults_and_names() {
    let limits = TelepathConfig::default();
    assert_eq!((limits.ttl_seconds, limits.max_msgs, limits.max_bytes), (300, 10_000, -1));
    let settings = create_telepath("test_demo", limits);
    assert_eq!(settings.name, "telepath_test_demo");
    assert_eq!(settings.subject, "telepath_test_demo.>");
    assert_eq!(settings.limits, limits);
    assert!(settings.memory_storage && settings.discard_old);
    assert_eq!(settings.replicas, 1);
    assert_eq!(stream_name(""), "telepath_");
    assert_eq!(consumer_name("test_demo"), "test_demo_consumer");
    assert_ne!(AckPolicy::Explicit, AckPolicy::NoAck);
    assert_ne!(AckPolicy::All, AckPolicy::NoAck);
}

#[test]
fn test_signal_subject_carries_the_authority() {
    let service = SignalService::new(config("lv3"));
    let mut signal =
        service.create_signal_at("parsed_transaction", vec![1, 2, 3], 1_700_000_000, 5, "id".to_string());
    assert_eq!(emit_subject("test_demo", &signal), "telepath_test_demo.lv3");
    signal.authority = 0;
    assert_eq!(emit_subject("x", &signal), "telepath_x.lv0");
    signal.authority = -12;
    assert_eq!(emit_subject("x", &signal), "telepath_x.lv-12");
    signal.authority = i32::MIN;
    assert_eq!(emit_subject("x", &signal), format!("telepath_x.lv{}", i32::MIN));
    signal.authority = i32::MAX;
    assert_eq!(emit_subject("x", &signal), format!("telepath_x.lv{}", i32::MAX));
}

#[test]
fn test_parse_authority_level() {
    assert_eq!(SignalService::parse_authority_level("LV0"), AuthorityLevel::Lv0);
    assert_eq!(SignalService::parse_authority_level("LV1"), AuthorityLevel::Lv1);
    assert_eq!(SignalService::parse_authority_level("lv2"), AuthorityLevel::Lv2);
    assert_eq!(SignalService::parse_authority_level("Lv3"), AuthorityLevel::Lv3);
    assert_eq!(SignalService::parse_authority_level("lV4"), AuthorityLevel::Lv4);
    assert_eq!(SignalService::parse_authority_level("LV5"), AuthorityLevel::Lv5);
    assert_eq!(SignalService::parse_authority_level("LV6"), AuthorityLevel::Lv0);
    assert_eq!(SignalService::parse_authority_level(""), AuthorityLevel::Lv0);
    assert_eq!(SignalService::parse_authority_level(" LV3"), AuthorityLevel::Lv0);
    assert_eq!(authority_level_named("lv3"), AuthorityLevel::Lv0);
    assert_eq!(authority_level_named("LV3"), AuthorityLevel::Lv3);
    assert_eq!(AuthorityLevel::Lv5.number(), 5);
    assert_eq!(AuthorityLevel::Lv0.number(), 0);
}

#[test]
fn test_create_signal() {
    let service = SignalService::new(config("LV2"));
    let signal = service.create_signal_at("bytes", vec![9, 8], 12, 34, "abc".to_string());
    assert_eq!(
        signal,
        MisakaSignal {
            timestamp_seconds: 12,
            timestamp_nanos: 34,
            uuid: "abc".to_string(),
            parent_uuid: String::new(),
            sender_agent: "test_agent".to_string(),
            authority: 2,
            content_type: "bytes".to_string(),
            payload: vec![9, 8],
        }
    );
    let id = uuid::Uuid::new_v4().to_string();
    let signal = service.create_signal("parsed_transaction", vec![7], id.clone());
    assert_eq!(signal.uuid, id);
    assert_eq!(signal.content_type, "parsed_transaction");
    assert_eq!(signal.payload, vec![7]);
    assert_eq!(signal.authority, 2);
    assert!(signal.parent_uuid.is_empty());
    assert!((chrono::Utc::now().timestamp() - signal.timestamp_seconds).abs() < 120);
    assert!(signal.timestamp_nanos >= 0);
}

#[test]
fn test_event_bundle() {
    let empty = EventBundle::default();
    assert!(empty.is_empty());
    let service = SignalService::new(config("LV1"));
    assert!(service.convert_transaction(&migration_tx(0)).is_none());
    let bundle = service.convert_transaction(&migration_tx(2)).unwrap();
    assert!(!bundle.is_empty());
    assert_eq!(bundle.pumpfun_migrate_event.len(), 2);
    assert_eq!(bundle.pumpfun_migrate_event[0].timestamp, u32::MAX);
    assert_eq!(bundle.pumpfun_migrate_event[0].transaction_index, u32::MAX);
    assert_eq!(bundle.pumpfun_migrate_event[1].instruction_index, 3);
    assert_eq!(bundle.pumpfun_migrate_event[0].signature, "1".repeat(64));
    assert_eq!(EventBundle::from_transaction(&migration_tx(1)).pumpfun_migrate_event.len(), 1);
}

#[test]
fn test_averages() {
    assert_eq!(average(10, 0), 0);
    assert_eq!(average(10, 3), 3);
    assert_eq!(average(u64::MAX, 1), u64::MAX);
    let totals = PeriodTotals {
        nats_messages: 4,
        signals: 2,
        conversion_time_us: 100,
        serialization_time_us: 30,
        emit_time_us: 9,
        bytes_sent: 2048,
    };
    assert_eq!(
        totals.averages(),
        PeriodAverages { conversion_us: 25, serialization_us: 15, emit_us: 4, bytes: 1024 }
    );
    let idle = PeriodTotals {
        nats_messages: 0,
        signals: 0,
        conversion_time_us: 0,
        serialization_time_us: 0,
        emit_time_us: 0,
        bytes_sent: 0,
    };
    assert_eq!(
        idle.averages(),
        PeriodAverages { conversion_us: 0, serialization_us: 0, emit_us: 0, bytes: 0 }
    );
}

#[test]
fn test_stream_that_is_already_there() {
    assert!(SignalService::is_already_there("stream name already in use"));
    assert!(SignalService::is_already_there("error: already exists (10058)"));
    assert!(SignalService::is_already_there("already exists"));
    assert!(!SignalService::is_already_there("already exist"));
    assert!(!SignalService::is_already_there("connection refused"));
    assert!(!SignalService::is_already_there(""));
}

fn text(key: &str, value: &str) -> (String, ConfigValue) {
    (key.to_string(), ConfigValue::String(value.to_string()))
}

#[test]
fn test_subscriber_config_from_toml_value() {
    let value = ConfigValue::Table(vec![
        text("nats_url", "nats://localhost:4222"),
        text("topic", "solana.tx"),
        (
            "tables".to_string(),
            ConfigValue::Table(vec![
                text("pumpfun_trade_event", "trades_live"),
                ("pumpfun_create_event".to_string(), ConfigValue::Integer(3)),
            ]),
        ),
    ]);
    let config = SubscriberConfig::from_toml_value(&value).unwrap();
    assert_eq!(config.nats_url, "nats://localhost:4222");
    assert_eq!(config.topic, "solana.tx");
    assert_eq!(config.max_concurrent_clickhouse_tasks, 10);
    assert_eq!(config.table_names.pumpfun_trade_event, "trades_live");
    let defaults = TableNames::default();
    assert_eq!(config.table_names.pumpfun_create_event, defaults.pumpfun_create_event);
    assert_eq!(config.table_names.pumpfun_create_event, "pumpfun_create_event_v2");
    assert_eq!(config.table_names.pumpfun_migrate_event, "pumpfun_migrate_event_v2");
    assert_eq!(config.table_names.pumpfun_amm_buy_event, "pumpfun_amm_buy_event_v2");
    assert_eq!(config.table_names.pumpfun_amm_sell_event, "pumpfun_amm_sell_event_v2");
    assert_eq!(config.table_names.pumpfun_amm_create_pool_event, "pumpfun_amm_create_pool_event_v2");
    assert_eq!(config.table_names.pumpfun_amm_deposit_event, "pumpfun_amm_deposit_event_v2");
    assert_eq!(config.table_names.pumpfun_amm_withdraw_event, "pumpfun_amm_withdraw_event_v2");
}

#[test]
fn test_subscriber_config_errors_in_order() {
    let tables = || ("tables".to_string(), ConfigValue::Table(vec![]));
    let error = SubscriberConfig::from_toml_value(&ConfigValue::Table(vec![
        text("nats_url", "n"),
        text("topic", "t"),
    ]))
    .unwrap_err();
    assert_eq!(error, ConfigError::MissingTables);
    assert_eq!(error.message(), "Missing 'tables' section in config");
    let error =
        SubscriberConfig::from_toml_value(&ConfigValue::Table(vec![tables()])).unwrap_err();
    assert_eq!(error, ConfigError::MissingNatsUrl);
    assert_eq!(error.message(), "Missing 'nats_url' in config");
    let error =
        SubscriberConfig::from_toml_value(&ConfigValue::Table(vec![tables(), text("nats_url", "n")]))
            .unwrap_err();
    assert_eq!(error, ConfigError::MissingTopic);
    assert_eq!(error.message(), "Missing 'topic' in config");
    // The section may be of any kind; names are then the default ones.
    let config = SubscriberConfig::from_toml_value(&ConfigValue::Table(vec![
        ("tables".to_string(), ConfigValue::Boolean(true)),
        text("nats_url", "n"),
        text("topic", "t"),
        ("max_concurrent_clickhouse_tasks".to_string(), ConfigValue::Integer(4)),
    ]))
    .unwrap();
    assert_eq!(config.table_names.pumpfun_trade_event, "pumpfun_trade_event_v2");
    assert_eq!(config.max_concurrent_clickhouse_tasks, 4);
}
