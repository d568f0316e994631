//! The settings of the live path.

use vstd::prelude::*;
use crate::clickhouse_util::insert_task::{TableNames, TableNamesView};
use crate::common::config_value::ConfigValue;

verus! {

/// The settings of the live path.
#[derive(Debug, Clone)]
pub struct Config {
    pub nats_url: String,
    pub topic: String,
    pub max_concurrent_clickhouse_tasks: usize,
    pub table_names: TableNames,
}

/// What a configuration lacks.
#[derive(Debug, Clone, Copy, PartialEq, Eq, Structural)]
pub enum ConfigError {
    MissingTables,
    MissingNatsUrl,
    MissingTopic,
}

impl ConfigError {
    /// The message of the error.
    pub fn message(&self) -> (text: &'static str)
        ensures
            text@ == (match *self {
                ConfigError::MissingTables => "Missing 'tables' section in config"@,
                ConfigError::MissingNatsUrl => "Missing 'nats_url' in config"@,
                ConfigError::MissingTopic => "Missing 'topic' in config"@,
            }),
    {
        match self {
            ConfigError::MissingTables => "Missing 'tables' section in config",
            ConfigError::MissingNatsUrl => "Missing 'nats_url' in config",
            ConfigError::MissingTopic => "Missing 'topic' in config",
        }
    }
}

/// The number of inserts that may run at once where nothing else is
/// configured.
pub const DEFAULT_MAX_CONCURRENT_TASKS: i64 = 10;

/// The name under `key` in the section of table names, or `fallback` where
/// the section holds no string there.
pub open spec fn name_or(tables: ConfigValue, key: Seq<char>, fallback: Seq<char>) -> Seq<char> {
    match tables.text_at(key) {
        Some(name) => name,
        None => fallback,
    }
}

/// The table names that a section of table names gives: for each table the
/// name under its key, or its default name.
pub open spec fn table_names_of(tables: ConfigValue) -> TableNamesView {
    TableNamesView {
        pumpfun_trade_event: name_or(tables, "pumpfun_trade_event"@, "pumpfun_trade_event_v2"@),
        pumpfun_create_event: name_or(tables, "pumpfun_create_event"@, "pumpfun_create_event_v2"@),
        pumpfun_migrate_event: name_or(tables, "pumpfun_migrate_event"@,
            "pumpfun_migrate_event_v2"@),
        pumpfun_amm_buy_event: name_or(tables, "pumpfun_amm_buy_event"@,
            "pumpfun_amm_buy_event_v2"@),
        pumpfun_amm_sell_event: name_or(tables, "pumpfun_amm_sell_event"@,
            "pumpfun_amm_sell_event_v2"@),
        pumpfun_amm_create_pool_event: name_or(tables, "pumpfun_amm_create_pool_event"@,
            "pumpfun_amm_create_pool_event_v2"@),
        pumpfun_amm_deposit_event: name_or(tables, "pumpfun_amm_deposit_event"@,
            "pumpfun_amm_deposit_event_v2"@),
        pumpfun_amm_withdraw_event: name_or(tables, "pumpfun_amm_withdraw_event"@,
            "pumpfun_amm_withdraw_event_v2"@),
    }
}

/// What reading the settings of the live path gives: the section `tables` has
/// to be there, then `nats_url` and `topic` as strings.
pub open spec fn read_outcome(value: ConfigValue) -> Option<ConfigError> {
    if value.lookup("tables"@) is None {
        Some(ConfigError::MissingTables)
    } else if value.text_at("nats_url"@) is None {
        Some(ConfigError::MissingNatsUrl)
    } else if value.text_at("topic"@) is None {
        Some(ConfigError::MissingTopic)
    } else {
        None
    }
}

impl Config {
    /// Reads the settings from the top table of a configuration. The number
    /// of inserts that may run at once is 10 where the table holds no integer
    /// for it.
    pub fn from_toml_value(toml_value: &ConfigValue) -> (config: Result<Config, ConfigError>)
        ensures
            match config {
                Ok(config) => {
                    &&& read_outcome(*toml_value) is None
                    &&& config.nats_url@ == toml_value.text_at("nats_url"@)->0
                    &&& config.topic@ == toml_value.text_at("topic"@)->0
                    &&& config.max_concurrent_clickhouse_tasks == (match toml_value.integer_at(
                        "max_concurrent_clickhouse_tasks"@,
                    ) {
                        Some(n) => n,
                        None => DEFAULT_MAX_CONCURRENT_TASKS,
                    }) as usize
                    &&& config.table_names@ == table_names_of(toml_value.lookup("tables"@)->0)
                },
                Err(error) => read_outcome(*toml_value) == Some(error),
            },
    {
        let tables = match toml_value.get("tables") {
            Some(tables) => tables,
            None => {
                return Err(ConfigError::MissingTables);
            },
        };
        let table_names = TableNames {
            pumpfun_trade_event: tables.string_or("pumpfun_trade_event", "pumpfun_trade_event_v2"),
            pumpfun_create_event: tables.string_or("pumpfun_create_event",
                "pumpfun_create_event_v2"),
            pumpfun_migrate_event: tables.string_or("pumpfun_migrate_event",
                "pumpfun_migrate_event_v2"),
            pumpfun_amm_buy_event: tables.string_or("pumpfun_amm_buy_event",
                "pumpfun_amm_buy_event_v2"),
            pumpfun_amm_sell_event: tables.string_or("pumpfun_amm_sell_event",
                "pumpfun_amm_sell_event_v2"),
            pumpfun_amm_create_pool_event: tables.string_or("pumpfun_amm_create_pool_event",
                "pumpfun_amm_create_pool_event_v2"),
            pumpfun_amm_deposit_event: tables.string_or("pumpfun_amm_deposit_event",
                "pumpfun_amm_deposit_event_v2"),
            pumpfun_amm_withdraw_event: tables.string_or("pumpfun_amm_withdraw_event",
                "pumpfun_amm_withdraw_event_v2"),
        };
        let nats_url = match toml_value.string_at("nats_url") {
            Some(text) => text,
            None => {
                return Err(ConfigError::MissingNatsUrl);
            },
        };
        let topic = match toml_value.string_at("topic") {
            Some(text) => text,
            None => {
                return Err(ConfigError::MissingTopic);
            },
        };
        let tasks = toml_value.integer_or(
            "max_concurrent_clickhouse_tasks",
            DEFAULT_MAX_CONCURRENT_TASKS,
        );
        Ok(
            Config {
                nats_url,
                topic,
                max_concurrent_clickhouse_tasks: #[verifier::truncate] (tasks as usize),
                table_names,
            },
        )
    }
}

} // verus!
