//! The rows of the analytical store and the extractor that fills them.

pub mod clickhouse_events;
pub mod convert_transaction;
pub mod insert_task;
pub mod tables;
