//! The two pipelines: the export, table by table and day by day, and the
//! import, folder by folder and file by file.

use vstd::prelude::*;
use vstd::seq_lib::{to_multiset_build, to_multiset_insert};
use crate::block_parser::file_scanner::{join_path, joined};
use crate::block_parser::processed_tracker::texts;
use crate::common::clock::current_time;
use crate::common::text::{
    comes_before, ends_with, lemma_text_before_transitive, text_before, to_chars,
};
use crate::syncer::config::{Date, LocalConfig, PipelineError, RemoteConfig};
use crate::syncer::extractor::ClickHouseExtractor;
use crate::syncer::importer::ClickHouseImporter;
use crate::syncer::parquet_helper::ParquetHelper;
use crate::syncer::transport::RsyncTransport;

verus! {

/// The days from `start` to `today`, both included, in their order: none
/// where `start` lies after `today`.
pub open spec fn days_between(start: int, today: int) -> Seq<Date> {
    Seq::new(
        if today >= start {
            (today - start + 1) as nat
        } else {
            0
        },
        |k: int| Date { days: (start + k) as i32 },
    )
}

/// Whether `day` is the day of the moment that lies `seconds` seconds after
/// the Unix epoch, in UTC: the number of whole days up to that moment, the
/// first and the last day that 32 bits can count standing for the days beyond
/// them.
pub open spec fn is_day_of(day: Date, seconds: int) -> bool {
    if seconds / 86400 < i32::MIN {
        day.days == i32::MIN
    } else if seconds / 86400 > i32::MAX {
        day.days == i32::MAX
    } else {
        day.days == seconds / 86400
    }
}

/// What is to be exported for one table.
#[derive(Debug, Clone, PartialEq, Eq)]
pub struct TablePlan {
    pub table: String,
    /// The name of the kind of the table's rows.
    pub event_type: String,
    /// The directory that holds the table's files, and that is transferred.
    pub table_dir: String,
    /// The days to export, in their order.
    pub days: Vec<Date>,
}

/// The export: extract, write, transfer, delete, for each table and each day.
#[derive(Debug, Clone)]
pub struct LocalPipeline {
    pub extractor: ClickHouseExtractor,
    pub parquet_helper: ParquetHelper,
    pub transport: RsyncTransport,
    pub config: LocalConfig,
}

impl LocalPipeline {
    pub fn new(config: LocalConfig) -> (pipeline: LocalPipeline)
        ensures
            pipeline.config == config,
            pipeline.transport.max_retries == 5,
            pipeline.transport.initial_retry_delay == 5,
    {
        LocalPipeline {
            extractor: ClickHouseExtractor::new(),
            parquet_helper: ParquetHelper::new(),
            transport: RsyncTransport::new(),
            config,
        }
    }

    /// The day of the moment that lies `seconds` seconds after the Unix epoch,
    /// in UTC; the first and the last day that 32 bits can count stand for the
    /// days beyond them.
    pub fn day_of(seconds: i64) -> (day: Date)
        ensures
            is_day_of(day, seconds as int),
    {
        let whole: i64 = seconds / 86400;
        let days: i64 = if seconds % 86400 < 0 {
            whole - 1
        } else {
            whole
        };
        if days < i32::MIN as i64 {
            Date { days: i32::MIN }
        } else if days > i32::MAX as i64 {
            Date { days: i32::MAX }
        } else {
            Date { days: days as i32 }
        }
    }

    /// The present day in UTC: the day of some moment that is not before the
    /// Unix epoch, so a day that is not before 1 January 1970.
    pub fn today() -> (day: Date)
        ensures
            day.days >= 0,
            exists|seconds: i64| seconds >= 0 && #[trigger] is_day_of(day, seconds as int),
    {
        let (seconds, _) = current_time();
        let day = Self::day_of(seconds);
        assert(is_day_of(day, seconds as int));
        day
    }

    /// The days from `start` to `today`, both included, in their order.
    pub fn days_to_export(start: Date, today: Date) -> (days: Vec<Date>)
        ensures
            days@ == days_between(start.days as int, today.days as int),
    {
        let mut days: Vec<Date> = Vec::new();
        if today.days < start.days {
            assert(days@ =~= days_between(start.days as int, today.days as int));
            return days;
        }
        let mut day: i32 = start.days;
        while day < today.days
            invariant
                start.days <= day <= today.days,
                days@ == days_between(start.days as int, day - 1),
            decreases today.days - day,
        {
            days.push(Date { days: day });
            assert(days@ =~= days_between(start.days as int, day as int));
            day = day + 1;
        }
        days.push(Date { days: day });
        assert(days@ =~= days_between(start.days as int, today.days as int));
        days
    }

    /// What is to be exported for the table at `index`, the present day being
    /// `today`: the days from the first day of the settings to `today`. A
    /// table without a configured kind of rows is an error.
    pub fn table_plan(&self, index: usize, today: Date) -> (plan: Result<TablePlan, PipelineError>)
        requires
            index < self.config.tables@.len(),
        ensures
            self.config.table_event_mappings.lookup(self.config.tables@[index as int]@) is None
                ==> plan is Err && plan->Err_0 == PipelineError::EventTypeNotFoundForTable(
                self.config.tables@[index as int],
            ),
            self.config.table_event_mappings.lookup(self.config.tables@[index as int]@) is Some
                ==> {
                &&& plan is Ok
                &&& plan->Ok_0.table == self.config.tables@[index as int]
                &&& Some(plan->Ok_0.event_type@) == self.config.table_event_mappings.lookup(
                    self.config.tables@[index as int]@,
                )
                &&& plan->Ok_0.table_dir@ == joined(
                    self.config.local_storage_path@,
                    self.config.tables@[index as int]@,
                )
                &&& plan->Ok_0.days@ == days_between(
                    self.config.start_time.days as int,
                    today.days as int,
                )
            },
    {
        let table = &self.config.tables[index];
        let event_type = match self.config.table_event_mappings.get(table.as_str()) {
            Some(name) => name.to_string(),
            None => {
                return Err(PipelineError::EventTypeNotFoundForTable(table.clone()));
            },
        };
        Ok(
            TablePlan {
                table: table.clone(),
                event_type,
                table_dir: join_path(self.config.local_storage_path.as_str(), table.as_str()),
                days: Self::days_to_export(self.config.start_time, today),
            },
        )
    }
}

/// Whether a file name has the extension of an exported file: it ends in
/// `.parquet`, and something comes before that.
pub open spec fn is_parquet_name(name: Seq<char>) -> bool {
    ".parquet"@.is_suffix_of(name) && name.len() > 8
}

/// The names of exported files among the first `n` names, in their order.
pub open spec fn parquet_before(names: Seq<Seq<char>>, n: int) -> Seq<Seq<char>>
    decreases n,
{
    if n <= 0 {
        Seq::empty()
    } else if is_parquet_name(names[n - 1]) {
        parquet_before(names, n - 1).push(names[n - 1])
    } else {
        parquet_before(names, n - 1)
    }
}

/// Whether no text comes before an earlier one.
pub open spec fn in_name_order(list: Seq<Seq<char>>) -> bool {
    forall|j: int, k: int| 0 <= j < k < list.len() ==> !text_before(#[trigger] list[k],
        #[trigger] list[j])
}

/// What is to be imported for one folder.
#[derive(Debug, Clone, PartialEq, Eq)]
pub struct FolderPlan {
    pub source_folder: String,
    pub target_table: String,
    /// The name of the kind of the rows in the folder's files.
    pub event_type: String,
    pub folder_path: String,
}

/// What an import has done so far.
#[derive(Debug, Clone, Copy, PartialEq, Eq, Structural)]
pub struct ImportTotals {
    pub files: usize,
    pub rows: u64,
}

/// The import: for each folder its files in the order of their names, each
/// into the folder's table.
#[derive(Debug, Clone)]
pub struct RemotePipeline {
    pub parquet_helper: ParquetHelper,
    pub importer: ClickHouseImporter,
    pub config: RemoteConfig,
}

impl RemotePipeline {
    pub fn new(config: RemoteConfig) -> (pipeline: RemotePipeline)
        ensures
            pipeline.config == config,
    {
        RemotePipeline {
            parquet_helper: ParquetHelper::new(),
            importer: ClickHouseImporter::new(),
            config,
        }
    }

    /// What is to be imported for the folder at `index`. A folder without a
    /// configured kind of rows is an error.
    pub fn folder_plan(&self, index: usize) -> (plan: Result<FolderPlan, PipelineError>)
        requires
            index < self.config.import_mappings.entries@.len(),
        ensures
            self.config.table_event_mappings.lookup(
                self.config.import_mappings.entries@[index as int].0@,
            ) is None ==> plan is Err && plan->Err_0 == PipelineError::EventTypeNotFoundForFolder(
                self.config.import_mappings.entries@[index as int].0,
            ),
            self.config.table_event_mappings.lookup(
                self.config.import_mappings.entries@[index as int].0@,
            ) is Some ==> {
                &&& plan is Ok
                &&& plan->Ok_0.source_folder == self.config.import_mappings.entries@[index as int].0
                &&& plan->Ok_0.target_table == self.config.import_mappings.entries@[index as int].1
                &&& Some(plan->Ok_0.event_type@) == self.config.table_event_mappings.lookup(
                    self.config.import_mappings.entries@[index as int].0@,
                )
                &&& plan->Ok_0.folder_path@ == joined(
                    self.config.remote_storage_path@,
                    self.config.import_mappings.entries@[index as int].0@,
                )
            },
    {
        let folder = &self.config.import_mappings.entries[index].0;
        let table = &self.config.import_mappings.entries[index].1;
        let event_type = match self.config.table_event_mappings.get(folder.as_str()) {
            Some(name) => name.to_string(),
            None => {
                return Err(PipelineError::EventTypeNotFoundForFolder(folder.clone()));
            },
        };
        Ok(
            FolderPlan {
                source_folder: folder.clone(),
                target_table: table.clone(),
                event_type,
                folder_path: join_path(
                    self.config.remote_storage_path.as_str(),
                    folder.as_str(),
                ),
            },
        )
    }

    /// The files to import among the names of a folder: the names with the
    /// extension `parquet`, each as often as it is listed, in the order of
    /// their names, which is the order of their days.
    pub fn parquet_files(names: &Vec<String>) -> (files: Vec<String>)
        ensures
            texts(files@).to_multiset() == parquet_before(
                texts(names@),
                names@.len() as int,
            ).to_multiset(),
            in_name_order(texts(files@)),
    {
        proof {
            reveal_strlit(".parquet");
        }
        let mut files: Vec<String> = Vec::new();
        let mut i: usize = 0;
        let ghost all = texts(names@);
        assert(texts(files@) =~= parquet_before(all, 0));
        while i < names.len()
            invariant
                i <= names@.len(),
                all == texts(names@),
                ".parquet"@.len() == 8,
                texts(files@).to_multiset() == parquet_before(all, i as int).to_multiset(),
                in_name_order(texts(files@)),
            decreases names@.len() - i,
        {
            let name = &names[i];
            let chars = to_chars(name.as_str());
            assert(all[i as int] == name@);
            if ends_with(&chars, ".parquet") && chars.len() > 8 {
                let ghost before = texts(files@);
                let ghost selected = parquet_before(all, i as int);
                let mut at: usize = 0;
                while at < files.len() && !comes_before(name.as_str(), files[at].as_str())
                    invariant
                        at <= files@.len(),
                        before == texts(files@),
                        forall|j: int| 0 <= j < at ==> !text_before(name@, #[trigger] before[j]),
                    decreases files@.len() - at,
                {
                    assert(before[at as int] == files@[at as int]@);
                    at = at + 1;
                }
                proof {
                    if at < files@.len() {
                        assert(before[at as int] == files@[at as int]@);
                    }
                }
                files.insert(at, name.clone());
                proof {
                    let after = texts(files@);
                    assert(after =~= before.insert(at as int, name@));
                    to_multiset_insert(before, at as int, name@);
                    to_multiset_build(selected, name@);
                    assert forall|j: int, k: int| 0 <= j < k < after.len() implies !text_before(
                        #[trigger] after[k],
                        #[trigger] after[j],
                    ) by {
                        if k < at {
                            assert(after[j] == before[j] && after[k] == before[k]);
                        } else if k == at {
                            assert(after[j] == before[j]);
                        } else if j == at {
                            assert(after[k] == before[k - 1]);
                            if text_before(after[k], name@) {
                                if k - 1 > at {
                                    lemma_text_before_transitive(
                                        before[k - 1],
                                        name@,
                                        before[at as int],
                                    );
                                    assert(!text_before(before[k - 1], before[at as int]));
                                } else {
                                    crate::common::text::lemma_text_before_transitive(
                                        name@,
                                        before[at as int],
                                        name@,
                                    );
                                    crate::common::text::lemma_text_before_irreflexive(name@);
                                }
                            }
                        } else if j < at {
                            assert(after[j] == before[j] && after[k] == before[k - 1]);
                        } else {
                            assert(after[j] == before[j - 1] && after[k] == before[k - 1]);
                        }
                    }
                }
            }
            i = i + 1;
        }
        files
    }
}

impl ImportTotals {
    pub fn new() -> (totals: ImportTotals)
        ensures
            totals.files == 0,
            totals.rows == 0,
    {
        ImportTotals { files: 0, rows: 0 }
    }

    /// Takes note of a file that was imported with `rows` rows.
    pub fn add_file(&mut self, rows: u64)
        requires
            old(self).files < usize::MAX,
            old(self).rows + rows <= u64::MAX,
        ensures
            final(self).files == old(self).files + 1,
            final(self).rows == old(self).rows + rows,
    {
        self.files = self.files + 1;
        self.rows = self.rows + rows;
    }
}

} // verus!
