//! The import of one file: its rows go into one table, as rows of one kind.

use vstd::prelude::*;
use crate::clickhouse_util::clickhouse_events::EventKind;
use crate::syncer::config::{is_unknown_event_type, PipelineError};
use crate::syncer::extractor::{event_kind_named, named_kind};
use crate::syncer::parquet_helper::ParquetHelper;

verus! {

/// Imports exported files into the store.
#[derive(Debug, Clone, Copy, PartialEq, Eq)]
pub struct ClickHouseImporter {
    pub parquet_helper: ParquetHelper,
}

impl ClickHouseImporter {
    pub fn new() -> ClickHouseImporter {
        ClickHouseImporter { parquet_helper: ParquetHelper::new() }
    }

    /// The kind of the rows of a file that is imported as `event_type`, or the
    /// error that the name names no kind of rows.
    pub fn row_kind(&self, event_type: &str) -> (kind: Result<EventKind, PipelineError>)
        ensures
            match kind {
                Ok(kind) => named_kind(event_type@) == Some(kind),
                Err(error) => named_kind(event_type@) is None && is_unknown_event_type(
                    error,
                    event_type@,
                ),
            },
    {
        event_kind_named(event_type)
    }
}

impl Default for ClickHouseImporter {
    fn default() -> ClickHouseImporter {
        ClickHouseImporter::new()
    }
}

} // verus!
