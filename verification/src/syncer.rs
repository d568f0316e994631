//! Export of the store by day, import of the exported files, and
//! reconciliation of two stores.

pub mod config;
pub mod extractor;
pub mod importer;
pub mod parquet_helper;
pub mod pipeline;
pub mod sync_checker;
pub mod sync_config;
pub mod transport;
