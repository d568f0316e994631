//! The settings of the export and of the import.

use vstd::prelude::*;
use vstd::string::StringExecFns;
use crate::common::text::same_text;

verus! {

/// A calendar day, counted from 1 January 1970 as day 0.
#[derive(Debug, Clone, Copy, PartialEq, Eq, Structural)]
pub struct Date {
    pub days: i32,
}

/// Names by name: for each key the name that belongs to it.
#[derive(Debug, Clone, PartialEq, Eq)]
pub struct NameMap {
    /// The keys with their names. Where a key stands twice, the first counts.
    pub entries: Vec<(String, String)>,
}

/// The name of the first of the first `n` entries with the given key.
pub open spec fn name_before(entries: Seq<(String, String)>, key: Seq<char>, n: int) -> Option<
    Seq<char>,
>
    decreases n,
{
    if n <= 0 {
        None
    } else {
        match name_before(entries, key, n - 1) {
            Some(name) => Some(name),
            None => if entries[n - 1].0@ == key {
                Some(entries[n - 1].1@)
            } else {
                None
            },
        }
    }
}

proof fn lemma_name_found(entries: Seq<(String, String)>, key: Seq<char>, i: int, n: int)
    requires
        0 <= i < n <= entries.len(),
        name_before(entries, key, i) is None,
        entries[i].0@ == key,
    ensures
        name_before(entries, key, n) == Some(entries[i].1@),
    decreases n - i,
{
    if n > i + 1 {
        lemma_name_found(entries, key, i, n - 1);
    }
}

impl NameMap {
    /// The name that belongs to `key`, if the map has the key.
    pub open spec fn lookup(&self, key: Seq<char>) -> Option<Seq<char>> {
        name_before(self.entries@, key, self.entries@.len() as int)
    }

    pub fn new() -> (map: NameMap)
        ensures
            map.entries@.len() == 0,
    {
        NameMap { entries: Vec::new() }
    }

    /// The name that belongs to `key`, if the map has the key.
    pub fn get(&self, key: &str) -> (name: Option<&str>)
        ensures
            match name {
                Some(found) => self.lookup(key@) == Some(found@),
                None => self.lookup(key@) is None,
            },
    {
        let mut i: usize = 0;
        while i < self.entries.len()
            invariant
                i <= self.entries@.len(),
                name_before(self.entries@, key@, i as int) is None,
            decreases self.entries@.len() - i,
        {
            if same_text(self.entries[i].0.as_str(), key) {
                proof {
                    lemma_name_found(
                        self.entries@,
                        key@,
                        i as int,
                        self.entries@.len() as int,
                    );
                }
                return Some(self.entries[i].1.as_str());
            }
            i = i + 1;
        }
        None
    }

    pub fn len(&self) -> (n: usize)
        ensures
            n == self.entries@.len(),
    {
        self.entries.len()
    }

    pub fn is_empty(&self) -> (empty: bool)
        ensures
            empty == (self.entries@.len() == 0),
    {
        self.entries.len() == 0
    }
}

/// Where the exported files go.
#[derive(Debug, Clone, PartialEq, Eq)]
pub struct RemoteServerConfig {
    pub address: String,
    pub port: u16,
    pub username: String,
    pub private_key_path: String,
    pub remote_path: String,
}

/// The settings of the export.
#[derive(Debug, Clone, PartialEq, Eq)]
pub struct LocalConfig {
    /// The tables to export.
    pub tables: Vec<String>,
    /// For each table the name of the kind of its rows.
    pub table_event_mappings: NameMap,
    /// The first day to export.
    pub start_time: Date,
    pub local_storage_path: String,
    pub remote_server: RemoteServerConfig,
}

/// The settings of the import.
#[derive(Debug, Clone, PartialEq, Eq)]
pub struct RemoteConfig {
    pub remote_storage_path: String,
    /// For each folder of exported files the table that takes its rows.
    pub import_mappings: NameMap,
    /// For each folder the name of the kind of its rows.
    pub table_event_mappings: NameMap,
}

/// Why an export or an import stops.
#[derive(Debug, Clone, PartialEq, Eq)]
pub enum PipelineError {
    /// No kind of rows is configured for the table.
    EventTypeNotFoundForTable(String),
    /// No kind of rows is configured for the folder.
    EventTypeNotFoundForFolder(String),
    /// The name does not name a kind of rows.
    UnknownEventType(String),
    /// The day is out of the range of the calendar or of the store's clock.
    InvalidDate,
}

/// Whether `error` says that `name` names no kind of rows.
pub open spec fn is_unknown_event_type(error: PipelineError, name: Seq<char>) -> bool {
    error matches PipelineError::UnknownEventType(text) && text@ == name
}

/// The message of an error.
pub open spec fn error_text(error: PipelineError) -> Seq<char> {
    match error {
        PipelineError::EventTypeNotFoundForTable(table) => "Event type not found for table: "@
            + table@,
        PipelineError::EventTypeNotFoundForFolder(folder) => "Event type not found for folder: "@
            + folder@,
        PipelineError::UnknownEventType(name) => "Unknown event type: "@ + name@,
        PipelineError::InvalidDate => "Invalid date"@,
    }
}

impl PipelineError {
    /// The message of the error.
    pub fn message(&self) -> (text: String)
        ensures
            text@ == error_text(*self),
    {
        match self {
            PipelineError::EventTypeNotFoundForTable(table) => String::from_str(
                "Event type not found for table: ",
            ).concat(table.as_str()),
            PipelineError::EventTypeNotFoundForFolder(folder) => String::from_str(
                "Event type not found for folder: ",
            ).concat(folder.as_str()),
            PipelineError::UnknownEventType(name) => String::from_str(
                "Unknown event type: ",
            ).concat(name.as_str()),
            PipelineError::InvalidDate => String::from_str("Invalid date"),
        }
    }
}

} // verus!
