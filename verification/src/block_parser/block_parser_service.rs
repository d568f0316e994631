//! The archive service: each scan of the data directory says which units are
//! still to be processed, and each unit that was processed is recorded.

use vstd::prelude::*;
use crate::block_parser::file_processor::{FileProcessor, ARCHIVE_BATCH_SIZE};
use crate::clickhouse_util::insert_task::default_table_names;
use crate::clickhouse_util::tables::Tables;
use crate::block_parser::file_scanner::{
    joined, distinct_prefixes, is_pair_in, is_unit, lists_prefix, newest_first, DirEntry, FilePair,
    FileScanner,
};
use crate::block_parser::processed_tracker::{
    cleaned, completed_prefixes, completion_record, increasing, texts, ProcessedTracker,
};
use crate::common::async_pool::AsyncPool;
use crate::common::config_value::ConfigValue;

verus! {

/// The settings of the archive service.
#[derive(Debug, Clone, PartialEq, Eq)]
pub struct Config {
    pub data_dir: String,
    pub processed_dir: String,
    pub scan_interval_seconds: u64,
    pub enable_watch: bool,
    pub max_concurrent_clickhouse_tasks: usize,
}

/// What a configuration lacks.
#[derive(Debug, Clone, Copy, PartialEq, Eq, Structural)]
pub enum ConfigError {
    MissingDataDir,
    MissingProcessedDir,
}

impl ConfigError {
    /// The message of the error.
    pub fn message(&self) -> (text: &'static str)
        ensures
            text@ == (match *self {
                ConfigError::MissingDataDir => "Missing 'data_dir' in config"@,
                ConfigError::MissingProcessedDir => "Missing 'processed_dir' in config"@,
            }),
    {
        match self {
            ConfigError::MissingDataDir => "Missing 'data_dir' in config",
            ConfigError::MissingProcessedDir => "Missing 'processed_dir' in config",
        }
    }
}

/// The seconds between two scans where nothing else is configured.
pub const DEFAULT_SCAN_INTERVAL_SECONDS: i64 = 600;

/// The number of inserts that may run at once where nothing else is
/// configured.
pub const DEFAULT_MAX_CONCURRENT_TASKS: i64 = 3;

impl Config {
    /// Reads the settings from the top table of a configuration: `data_dir`
    /// and `processed_dir` have to be there as strings; `scan_interval_seconds`
    /// is 600, `enable_watch` is true and `max_concurrent_clickhouse_tasks` is
    /// 3 where the table holds no value of the fitting kind for them.
    pub fn from_toml_value(toml_value: &ConfigValue) -> (config: Result<Config, ConfigError>)
        ensures
            toml_value.text_at("data_dir"@) is None ==> config == Err::<Config, ConfigError>(
                ConfigError::MissingDataDir,
            ),
            toml_value.text_at("data_dir"@) is Some && toml_value.text_at("processed_dir"@)
                is None ==> config == Err::<Config, ConfigError>(ConfigError::MissingProcessedDir),
            toml_value.text_at("data_dir"@) is Some && toml_value.text_at("processed_dir"@)
                is Some ==> {
                &&& config is Ok
                &&& config->Ok_0.data_dir@ == toml_value.text_at("data_dir"@)->0
                &&& config->Ok_0.processed_dir@ == toml_value.text_at("processed_dir"@)->0
                &&& config->Ok_0.scan_interval_seconds == (match toml_value.integer_at(
                    "scan_interval_seconds"@,
                ) {
                    Some(n) => n,
                    None => DEFAULT_SCAN_INTERVAL_SECONDS,
                }) as u64
                &&& config->Ok_0.enable_watch == (match toml_value.boolean_at("enable_watch"@) {
                    Some(b) => b,
                    None => true,
                })
                &&& config->Ok_0.max_concurrent_clickhouse_tasks == (match toml_value.integer_at(
                    "max_concurrent_clickhouse_tasks"@,
                ) {
                    Some(n) => n,
                    None => DEFAULT_MAX_CONCURRENT_TASKS,
                }) as usize
            },
    {
        let data_dir = match toml_value.string_at("data_dir") {
            Some(text) => text,
            None => {
                return Err(ConfigError::MissingDataDir);
            },
        };
        let processed_dir = match toml_value.string_at("processed_dir") {
            Some(text) => text,
            None => {
                return Err(ConfigError::MissingProcessedDir);
            },
        };
        let interval = toml_value.integer_or("scan_interval_seconds",
            DEFAULT_SCAN_INTERVAL_SECONDS);
        let tasks = toml_value.integer_or(
            "max_concurrent_clickhouse_tasks",
            DEFAULT_MAX_CONCURRENT_TASKS,
        );
        Ok(
            Config {
                data_dir,
                processed_dir,
                scan_interval_seconds: #[verifier::truncate] (interval as u64),
                enable_watch: toml_value.bool_or("enable_watch", true),
                max_concurrent_clickhouse_tasks: #[verifier::truncate] (tasks as usize),
            },
        )
    }
}

/// How much has been processed.
#[derive(Debug, Clone, PartialEq, Eq)]
pub struct ServiceStats {
    pub processed_count: usize,
    pub processed_prefixes: Vec<String>,
}

/// The most prefixes that a summary names.
pub const SUMMARY_PREFIXES: usize = 10;

impl ServiceStats {
    /// What a summary names: the last ten processed prefixes, or all of them
    /// where there are fewer, and the number of those that it leaves out.
    pub fn recent(&self) -> (shown: (Vec<String>, usize))
        ensures
            self.processed_prefixes@.len() <= SUMMARY_PREFIXES ==> shown.0@
                == self.processed_prefixes@ && shown.1 == 0,
            self.processed_prefixes@.len() > SUMMARY_PREFIXES ==> shown.0@
                == self.processed_prefixes@.skip(
                self.processed_prefixes@.len() - SUMMARY_PREFIXES,
            ) && shown.1 == self.processed_prefixes@.len() - SUMMARY_PREFIXES,
    {
        let total = self.processed_prefixes.len();
        let left_out: usize = if total > SUMMARY_PREFIXES {
            total - SUMMARY_PREFIXES
        } else {
            0
        };
        let mut shown: Vec<String> = Vec::new();
        let mut i: usize = left_out;
        while i < total
            invariant
                left_out <= i <= total,
                total == self.processed_prefixes@.len(),
                shown@ == self.processed_prefixes@.subrange(left_out as int, i as int),
            decreases total - i,
        {
            shown.push(self.processed_prefixes[i].clone());
            assert(self.processed_prefixes@.subrange(left_out as int, i + 1)
                =~= self.processed_prefixes@.subrange(left_out as int, i as int).push(
                self.processed_prefixes@[i as int],
            ));
            i = i + 1;
        }
        assert(self.processed_prefixes@.subrange(left_out as int, total as int)
            =~= self.processed_prefixes@.skip(left_out as int));
        assert(self.processed_prefixes@.skip(0) =~= self.processed_prefixes@);
        (shown, left_out)
    }
}

/// Whether `pending` are the units of `found` that `done` does not hold, in
/// the order of `found`.
pub open spec fn pending_of(found: Seq<FilePair>, done: Set<Seq<char>>, n: int) -> Seq<FilePair>
    decreases n,
{
    if n <= 0 {
        Seq::empty()
    } else if done.contains(found[n - 1].prefix@) {
        pending_of(found, done, n - 1)
    } else {
        pending_of(found, done, n - 1).push(found[n - 1])
    }
}

/// The archive service.
#[derive(Debug)]
pub struct BlockParserService {
    pub scanner: FileScanner,
    pub tracker: ProcessedTracker,
    pub processor: FileProcessor,
    pub scan_interval_seconds: u64,
    pub enable_watch: bool,
}

impl BlockParserService {
    /// The service for the given settings, knowing as processed what the lines
    /// of the log record as completed.
    pub fn new(config: &Config, log_lines: &Vec<String>) -> (service: BlockParserService)
        ensures
            service.scanner.dir() == config.data_dir@,
            service.tracker@ == completed_prefixes(texts(log_lines@)),
            service.tracker.path() == joined(config.processed_dir@, "processed_files.log"@),
            service.processor.batches@ == Tables::empty(),
            service.processor.batch_size == ARCHIVE_BATCH_SIZE,
            service.processor.table_names@ == default_table_names(),
            service.scan_interval_seconds == config.scan_interval_seconds,
            service.enable_watch == config.enable_watch,
            service.processor.max_concurrent_clickhouse_tasks
                == config.max_concurrent_clickhouse_tasks,
    {
        let scanner = FileScanner::new(config.data_dir.clone());
        let mut tracker = ProcessedTracker::new(config.processed_dir.as_str());
        tracker.load_processed_list(log_lines);
        BlockParserService {
            scanner,
            tracker,
            processor: FileProcessor::new(config.max_concurrent_clickhouse_tasks),
            scan_interval_seconds: config.scan_interval_seconds,
            enable_watch: config.enable_watch,
        }
    }

    /// The units of `found` that have not been processed, in the order of
    /// `found`.
    pub fn unprocessed(&self, found: Vec<FilePair>) -> (pending: Vec<FilePair>)
        ensures
            pending@ == pending_of(found@, self.tracker@, found@.len() as int),
    {
        let ghost all = found@;
        let mut pending: Vec<FilePair> = Vec::new();
        for pair in it: found
            invariant
                it.seq() == all,
                pending@ == pending_of(all, self.tracker@, it.index() as int),
        {
            if !self.tracker.is_processed(pair.prefix.as_str()) {
                pending.push(pair);
            }
        }
        pending
    }

    /// The units to process after a scan that found the given listing: those
    /// with a start slot and both files that have not been processed yet, each
    /// once, from the highest start slot down.
    pub fn pending_files(&self, listing: &Vec<DirEntry>) -> (pending: Vec<FilePair>)
        ensures
            forall|k: int|
                0 <= k < pending@.len() ==> is_pair_in(
                    #[trigger] pending@[k],
                    self.scanner.dir(),
                    listing@,
                ) && !self.tracker@.contains(pending@[k].prefix@),
            forall|prefix: Seq<char>|
                is_unit(listing@, prefix) && !self.tracker@.contains(prefix)
                    ==> #[trigger] lists_prefix(pending@, prefix),
            distinct_prefixes(pending@),
            newest_first(pending@),
    {
        let found = self.scanner.scan_available_files(listing);
        let pending = self.unprocessed(found);
        proof {
            lemma_pending_is_part(found@, self.tracker@, found@.len() as int);
            let n = found@.len() as int;
            let map = choose|map: Seq<int>| #[trigger] is_part_by(pending@, found@, self.tracker@,
                n, map);
            assert forall|k: int| 0 <= k < pending@.len() implies is_pair_in(
                #[trigger] pending@[k],
                self.scanner.dir(),
                listing@,
            ) && !self.tracker@.contains(pending@[k].prefix@) by {
                assert(pending@[k] == found@[map[k]]);
            }
            assert forall|prefix: Seq<char>|
                is_unit(listing@, prefix) && !self.tracker@.contains(
                    prefix,
                ) implies #[trigger] lists_prefix(pending@, prefix) by {
                assert(lists_prefix(found@, prefix));
                let j = choose|j: int| 0 <= j < found@.len() && (#[trigger] found@[j]).prefix@
                    == prefix;
                let k = choose|k: int| 0 <= k < map.len() && map[k] == j;
                assert(pending@[k] == found@[map[k]]);
            }
            assert forall|j: int, k: int| 0 <= j < k < pending@.len() implies (
            #[trigger] pending@[j]).prefix@ != (#[trigger] pending@[k]).prefix@ by {
                assert(pending@[j] == found@[map[j]]);
                assert(pending@[k] == found@[map[k]]);
                assert(map[j] < map[k]);
            }
            assert forall|j: int, k: int| 0 <= j < k < pending@.len()
                implies crate::block_parser::file_scanner::slot_key(
                (#[trigger] pending@[j]).prefix@,
            ) >= crate::block_parser::file_scanner::slot_key((#[trigger] pending@[k]).prefix@) by {
                assert(pending@[j] == found@[map[j]]);
                assert(pending@[k] == found@[map[k]]);
                assert(map[j] < map[k]);
            }
        }
        pending
    }

    /// The line to append to the log for the unit of `prefix`, once every
    /// insert of the unit has ended: the completion record of the prefix at
    /// some time. While an insert runs or waits in `pool` there is no such
    /// line. The service itself is not changed.
    pub fn completion_line(&self, prefix: &str, pool: &AsyncPool) -> (line: Option<String>)
        ensures
            pool.running() == 0 && pool.queued() == 0 ==> line is Some && exists|
                timestamp: Seq<char>,
            | line->0@ == completion_record(timestamp, prefix@),
            !(pool.running() == 0 && pool.queued() == 0) ==> line is None,
    {
        if pool.is_drained() {
            Some(ProcessedTracker::completion_line(prefix))
        } else {
            None
        }
    }

    /// Takes note that the unit of `prefix` has been processed, and says
    /// whether it did: it does so only once every insert of the unit has
    /// ended. It is called when the completion record is in the log. While an
    /// insert runs or waits in `pool` nothing is noted, so that a unit whose
    /// processing was cut short is processed again.
    pub fn complete(&mut self, prefix: &str, pool: &AsyncPool) -> (done: bool)
        ensures
            done == (pool.running() == 0 && pool.queued() == 0),
            done ==> final(self).tracker@ == old(self).tracker@.insert(prefix@),
            done ==> final(self).tracker@.contains(prefix@),
            !done ==> final(self).tracker@ == old(self).tracker@,
            final(self).tracker.path() == old(self).tracker.path(),
            final(self).scanner == old(self).scanner,
            final(self).processor == old(self).processor,
            final(self).scan_interval_seconds == old(self).scan_interval_seconds,
            final(self).enable_watch == old(self).enable_watch,
    {
        if pool.is_drained() {
            self.tracker.insert(prefix);
            true
        } else {
            false
        }
    }

    /// How much has been processed: the number of processed prefixes, and the
    /// prefixes in increasing order.
    pub fn get_stats(&self) -> (stats: ServiceStats)
        ensures
            stats.processed_count == self.tracker@.len(),
            texts(stats.processed_prefixes@).to_set() == self.tracker@,
            increasing(texts(stats.processed_prefixes@)),
    {
        ServiceStats {
            processed_count: self.tracker.processed_count(),
            processed_prefixes: self.tracker.get_processed_prefixes(),
        }
    }

    /// The lines that a cleanup leaves of the log.
    pub fn cleanup_processed_log(&self, lines: &Vec<String>) -> (kept: Vec<String>)
        ensures
            texts(kept@) == cleaned(texts(lines@)),
    {
        ProcessedTracker::cleanup_log(lines)
    }
}

/// Whether `map` names, for each unit of `part`, its place among the first `n`
/// units of `found`: the places increase, each holds a unit that is not done,
/// and every unit among the first `n` that is not done has its place named.
pub open spec fn is_part_by(
    part: Seq<FilePair>,
    found: Seq<FilePair>,
    done: Set<Seq<char>>,
    n: int,
    map: Seq<int>,
) -> bool {
    &&& map.len() == part.len()
    &&& forall|k: int|
        0 <= k < map.len() ==> 0 <= (#[trigger] map[k]) < n && part[k] == found[map[k]]
            && !done.contains(found[map[k]].prefix@)
    &&& forall|j: int, k: int| 0 <= j < k < map.len() ==> (#[trigger] map[j]) < (#[trigger] map[k])
    &&& forall|i: int|
        0 <= i < n && !done.contains((#[trigger] found[i]).prefix@) ==> exists|k: int|
            0 <= k < map.len() && #[trigger] map[k] == i
}

proof fn lemma_pending_is_part(found: Seq<FilePair>, done: Set<Seq<char>>, n: int)
    requires
        0 <= n <= found.len(),
    ensures
        exists|map: Seq<int>| #[trigger] is_part_by(pending_of(found, done, n), found, done, n,
            map),
    decreases n,
{
    if n == 0 {
        assert(is_part_by(pending_of(found, done, 0), found, done, 0, Seq::<int>::empty()));
    } else {
        lemma_pending_is_part(found, done, n - 1);
        let earlier = pending_of(found, done, n - 1);
        let m = n - 1;
        let map = choose|map: Seq<int>| #[trigger] is_part_by(earlier, found, done, m, map);
        if done.contains(found[n - 1].prefix@) {
            assert(is_part_by(pending_of(found, done, n), found, done, n, map)) by {
                assert forall|i: int|
                    0 <= i < n && !done.contains((#[trigger] found[i]).prefix@) implies exists|
                    k: int,
                |
                    0 <= k < map.len() && #[trigger] map[k] == i by {
                    assert(i < n - 1);
                }
            }
        } else {
            let longer = map.push(n - 1);
            let part = pending_of(found, done, n);
            assert(part == earlier.push(found[n - 1]));
            assert(is_part_by(part, found, done, n, longer)) by {
                assert forall|k: int| 0 <= k < longer.len() implies 0 <= (#[trigger] longer[k]) < n
                    && part[k] == found[longer[k]] && !done.contains(found[longer[k]].prefix@) by {
                    if k < map.len() {
                        assert(longer[k] == map[k]);
                    }
                }
                assert forall|j: int, k: int| 0 <= j < k < longer.len() implies (
                #[trigger] longer[j]) < (#[trigger] longer[k]) by {
                    assert(longer[j] == map[j]);
                    if k < map.len() {
                        assert(longer[k] == map[k]);
                    }
                }
                assert forall|i: int|
                    0 <= i < n && !done.contains((#[trigger] found[i]).prefix@) implies exists|
                    k: int,
                |
                    0 <= k < longer.len() && #[trigger] longer[k] == i by {
                    if i < n - 1 {
                        let k = choose|k: int| 0 <= k < map.len() && #[trigger] map[k] == i;
                        assert(longer[k] == i);
                    } else {
                        assert(longer[map.len() as int] == i);
                    }
                }
            }
        }
    }
}

/// A unit that was completed is not pending in any later scan, and nothing
/// but a completion takes a unit from the pending ones: the units to process
/// are the units found whose prefix the tracker does not hold.
pub proof fn lemma_completed_unit_is_not_pending(
    found: Seq<FilePair>,
    done: Set<Seq<char>>,
    prefix: Seq<char>,
    n: int,
)
    requires
        0 <= n <= found.len(),
    ensures
        !lists_prefix(pending_of(found, done.insert(prefix), n), prefix),
        forall|k: int|
            0 <= k < n && !done.contains((#[trigger] found[k]).prefix@) ==> lists_prefix(
                pending_of(found, done, n),
                found[k].prefix@,
            ),
    decreases n,
{
    if n > 0 {
        lemma_completed_unit_is_not_pending(found, done, prefix, n - 1);
        let earlier = pending_of(found, done.insert(prefix), n - 1);
        let now = pending_of(found, done.insert(prefix), n);
        if lists_prefix(now, prefix) {
            let k = choose|k: int| 0 <= k < now.len() && (#[trigger] now[k]).prefix@ == prefix;
            if k < earlier.len() {
                assert(earlier[k] == now[k]);
            }
        }
        let before = pending_of(found, done, n - 1);
        let after = pending_of(found, done, n);
        assert forall|k: int|
            0 <= k < n && !done.contains((#[trigger] found[k]).prefix@) implies lists_prefix(
            after,
            found[k].prefix@,
        ) by {
            if k < n - 1 {
                assert(lists_prefix(before, found[k].prefix@));
                let j = choose|j: int|
                    0 <= j < before.len() && (#[trigger] before[j]).prefix@ == found[k].prefix@;
                assert(after[j] == before[j]);
            } else {
                assert(after[after.len() - 1] == found[k]);
            }
        }
    }
}

} // verus!
