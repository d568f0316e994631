//! Reconciliation of two stores: the buckets of time in which the two count
//! differently are found, by the hour and then by the minute, and each
//! differing minute is replayed from the local store to the remote one.

use std::collections::HashMap;
use vstd::prelude::*;
use vstd::string::StringExecFns;
use crate::common::clock::current_time;
use crate::common::text::{
    decimal, push_decimal, skip_leading, slice_text, to_chars, without_leading,
};
use crate::syncer::sync_config::SyncConfig;

verus! {

/// The number of distinct rows that a store holds in one bucket of time.
#[derive(Debug, Clone, Copy, PartialEq, Eq, Structural)]
pub struct BucketCount {
    /// The second at which the bucket begins.
    pub bucket: u32,
    pub unique_count: u64,
}

/// The count that a store gave for a bucket among its first `n` answers: that
/// of the first answer for the bucket, or none where it gave no answer for it.
pub open spec fn count_before(side: Seq<BucketCount>, bucket: u32, n: int) -> Option<u64>
    decreases n,
{
    if n <= 0 {
        None
    } else {
        match count_before(side, bucket, n - 1) {
            Some(count) => Some(count),
            None => if side[n - 1].bucket == bucket {
                Some(side[n - 1].unique_count)
            } else {
                None
            },
        }
    }
}

/// The count that a store gave for a bucket, or none where it gave none.
pub open spec fn count_in(side: Seq<BucketCount>, bucket: u32) -> Option<u64> {
    count_before(side, bucket, side.len() as int)
}

/// Whether the two stores differ in a bucket: they gave different counts, or
/// only one of them gave a count.
pub open spec fn differs(local: Seq<BucketCount>, remote: Seq<BucketCount>, bucket: u32) -> bool {
    count_in(local, bucket) != count_in(remote, bucket)
}

/// Whether each bucket lies strictly before the next.
pub open spec fn ascending(buckets: Seq<u32>) -> bool {
    forall|j: int, k: int| 0 <= j < k < buckets.len() ==> buckets[j] < buckets[k]
}

/// A store that gave a count for a bucket gave an answer for it.
pub proof fn lemma_counted_bucket_is_listed(side: Seq<BucketCount>, bucket: u32, n: int)
    requires
        0 <= n <= side.len(),
        count_before(side, bucket, n) is Some,
    ensures
        exists|i: int| 0 <= i < n && (#[trigger] side[i]).bucket == bucket,
    decreases n,
{
    if count_before(side, bucket, n - 1) is Some {
        lemma_counted_bucket_is_listed(side, bucket, n - 1);
    } else {
        assert(side[n - 1].bucket == bucket);
    }
}

/// A store that gave an answer for a bucket gave a count for it.
pub proof fn lemma_listed_bucket_is_counted(side: Seq<BucketCount>, i: int, n: int)
    requires
        0 <= i < n <= side.len(),
    ensures
        count_before(side, side[i].bucket, n) is Some,
    decreases n,
{
    if i < n - 1 {
        lemma_listed_bucket_is_counted(side, i, n - 1);
    }
}

/// The count that a map holds for a bucket, or none where it holds none.
pub open spec fn looked_up(counts: Map<u32, u64>, bucket: u32) -> Option<u64> {
    if counts.contains_key(bucket) {
        Some(counts[bucket])
    } else {
        None
    }
}

/// The counts of a store by bucket: for each bucket the count of the first
/// answer that the store gave for it.
fn count_map(side: &Vec<BucketCount>) -> (counts: HashMap<u32, u64>)
    ensures
        forall|b: u32| looked_up(counts@, b) == count_in(side@, b),
{
    broadcast use vstd::std_specs::hash::group_hash_axioms;

    let mut counts: HashMap<u32, u64> = HashMap::new();
    let mut i: usize = 0;
    while i < side.len()
        invariant
            i <= side@.len(),
            forall|b: u32| looked_up(counts@, b) == count_before(side@, b, i as int),
        decreases side@.len() - i,
    {
        let entry = side[i];
        let ghost before = counts@;
        if !counts.contains_key(&entry.bucket) {
            counts.insert(entry.bucket, entry.unique_count);
        }
        proof {
            assert forall|b: u32| looked_up(counts@, b) == count_before(side@, b, i + 1) by {
                assert(looked_up(before, b) == count_before(side@, b, i as int));
            }
        }
        i = i + 1;
    }
    counts
}

/// The count that a map holds for a bucket.
fn count_of(counts: &HashMap<u32, u64>, bucket: u32) -> (count: Option<u64>)
    ensures
        count == looked_up(counts@, bucket),
{
    broadcast use vstd::std_specs::hash::group_hash_axioms;

    match counts.get(&bucket) {
        Some(count) => Some(*count),
        None => None,
    }
}

fn same_count(a: Option<u64>, b: Option<u64>) -> (same: bool)
    ensures
        same == (a == b),
{
    match (a, b) {
        (Some(x), Some(y)) => x == y,
        (None, None) => true,
        _ => false,
    }
}

/// Puts `bucket` into an ascending list, unless it is there.
fn insert_bucket(buckets: &mut Vec<u32>, bucket: u32)
    requires
        ascending(old(buckets)@),
    ensures
        ascending(final(buckets)@),
        forall|b: u32| final(buckets)@.contains(b) <==> (old(buckets)@.contains(b) || b == bucket),
{
    let ghost before = buckets@;
    let mut at: usize = 0;
    while at < buckets.len() && buckets[at] < bucket
        invariant
            at <= buckets@.len(),
            buckets@ == before,
            forall|j: int| 0 <= j < at ==> before[j] < bucket,
        decreases buckets@.len() - at,
    {
        at = at + 1;
    }
    if at < buckets.len() && buckets[at] == bucket {
        assert(before.contains(bucket));
        return ;
    }
    buckets.insert(at, bucket);
    proof {
        let after = buckets@;
        assert(after == before.insert(at as int, bucket));
        assert forall|j: int, k: int| 0 <= j < k < after.len() implies after[j] < after[k] by {
            if k < at {
            } else if k == at {
            } else if j == at {
                assert(after[k] == before[k - 1]);
                if k - 1 > at {
                    assert(before[at as int] < before[k - 1]);
                }
            } else if j < at {
                assert(after[k] == before[k - 1]);
            } else {
                assert(after[j] == before[j - 1] && after[k] == before[k - 1]);
            }
        }
        assert forall|b: u32| after.contains(b) <==> (before.contains(b) || b == bucket) by {
            if after.contains(b) {
                let i = choose|i: int| 0 <= i < after.len() && after[i] == b;
                if i < at {
                    assert(before[i] == b);
                } else if i > at {
                    assert(before[i - 1] == b);
                }
            }
            if before.contains(b) {
                let i = choose|i: int| 0 <= i < before.len() && before[i] == b;
                if i < at {
                    assert(after[i] == b);
                } else {
                    assert(after[i + 1] == b);
                }
            }
            if b == bucket {
                assert(after[at as int] == b);
            }
        }
    }
}

/// The buckets in which the two stores differ, each once, in ascending order.
pub fn diff_buckets(local: &Vec<BucketCount>, remote: &Vec<BucketCount>) -> (buckets: Vec<u32>)
    ensures
        ascending(buckets@),
        forall|b: u32| buckets@.contains(b) <==> differs(local@, remote@, b),
        buckets@.len() <= local@.len() + remote@.len(),
{
    let local_counts = count_map(local);
    let remote_counts = count_map(remote);
    let mut buckets: Vec<u32> = Vec::new();
    let mut i: usize = 0;
    while i < local.len()
        invariant
            i <= local@.len(),
            forall|b: u32| looked_up(local_counts@, b) == count_in(local@, b),
            forall|b: u32| looked_up(remote_counts@, b) == count_in(remote@, b),
            ascending(buckets@),
            forall|b: u32| buckets@.contains(b) ==> differs(local@, remote@, b),
            forall|j: int|
                0 <= j < i && differs(local@, remote@, (#[trigger] local@[j]).bucket)
                    ==> buckets@.contains(local@[j].bucket),
        decreases local@.len() - i,
    {
        let bucket = local[i].bucket;
        if !same_count(count_of(&local_counts, bucket), count_of(&remote_counts, bucket)) {
            insert_bucket(&mut buckets, bucket);
        }
        i = i + 1;
    }
    let mut i: usize = 0;
    while i < remote.len()
        invariant
            i <= remote@.len(),
            forall|b: u32| looked_up(local_counts@, b) == count_in(local@, b),
            forall|b: u32| looked_up(remote_counts@, b) == count_in(remote@, b),
            ascending(buckets@),
            forall|b: u32| buckets@.contains(b) ==> differs(local@, remote@, b),
            forall|j: int|
                0 <= j < local@.len() && differs(local@, remote@, (#[trigger] local@[j]).bucket)
                    ==> buckets@.contains(local@[j].bucket),
            forall|j: int|
                0 <= j < i && differs(local@, remote@, (#[trigger] remote@[j]).bucket)
                    ==> buckets@.contains(remote@[j].bucket),
        decreases remote@.len() - i,
    {
        let bucket = remote[i].bucket;
        if !same_count(count_of(&local_counts, bucket), count_of(&remote_counts, bucket)) {
            insert_bucket(&mut buckets, bucket);
        }
        i = i + 1;
    }
    proof {
        assert forall|b: u32| differs(local@, remote@, b) implies buckets@.contains(b) by {
            if count_in(local@, b) is Some {
                lemma_counted_bucket_is_listed(local@, b, local@.len() as int);
                let j = choose|j: int| 0 <= j < local@.len() && (#[trigger] local@[j]).bucket == b;
                assert(buckets@.contains(local@[j].bucket));
            } else {
                lemma_counted_bucket_is_listed(remote@, b, remote@.len() as int);
                let j = choose|j: int|
                    0 <= j < remote@.len() && (#[trigger] remote@[j]).bucket == b;
                assert(buckets@.contains(remote@[j].bucket));
            }
        }
        lemma_diff_is_short(local@, remote@, buckets@);
    }
    buckets
}

/// Two stores that gave the same answers differ in no bucket.
pub proof fn lemma_same_answers_no_difference(side: Seq<BucketCount>, bucket: u32)
    ensures
        !differs(side, side, bucket),
{
}

/// Where the two stores differ in no bucket, there is nothing to replay: a
/// list that holds exactly the differing buckets is empty.
pub proof fn lemma_nothing_to_replay(
    local: Seq<BucketCount>,
    remote: Seq<BucketCount>,
    buckets: Seq<u32>,
)
    requires
        forall|b: u32| buckets.contains(b) <==> differs(local, remote, b),
        forall|b: u32| count_in(local, b) == count_in(remote, b),
    ensures
        buckets.len() == 0,
{
    if buckets.len() > 0 {
        assert(buckets.contains(buckets[0]));
    }
}

/// A pass settles every difference: if, after it, the remote store counts in
/// each bucket that differed what the local store counts there, and counts in
/// every other bucket what it counted before, then the two stores differ in
/// no bucket.
pub proof fn lemma_replay_settles_differences(
    local: Seq<BucketCount>,
    remote: Seq<BucketCount>,
    after: Seq<BucketCount>,
    bucket: u32,
)
    requires
        forall|b: u32| differs(local, remote, b) ==> count_in(after, b) == count_in(local, b),
        forall|b: u32| !differs(local, remote, b) ==> count_in(after, b) == count_in(remote, b),
    ensures
        !differs(local, after, bucket),
{
}

/// The seconds in an hour.
pub const SECONDS_PER_HOUR: i64 = 3600;

/// The seconds in a day.
pub const SECONDS_PER_DAY: i64 = 86400;

/// A span of time, in seconds since the Unix epoch, from `start` up to but not
/// including `end`.
#[derive(Debug, Clone, Copy, PartialEq, Eq, Structural)]
pub struct TimeRange {
    pub start: i64,
    pub end: i64,
}

impl TimeRange {
    /// The bounds of the span as the store's clock of 32 bits holds them.
    pub fn clock_bounds(&self) -> (bounds: (u32, u32))
        ensures
            bounds.0 == self.start as u32,
            bounds.1 == self.end as u32,
    {
        (#[verifier::truncate] (self.start as u32), #[verifier::truncate] (self.end as u32))
    }
}

/// The window of a reconciliation at the time `now`: it ends `lag_hours` hours
/// before `now` and spans `check_days` days.
pub open spec fn window_at(now: int, lag_hours: int, check_days: int) -> (int, int) {
    (now - lag_hours * 3600 - check_days * 86400, now - lag_hours * 3600)
}

/// Whether `range` is what the window of a reconciliation at the time `now`
/// comes to: the window itself, or nothing where the window begins before
/// the first second that 64 bits can hold.
pub open spec fn is_range_at(
    range: Option<TimeRange>,
    now: int,
    lag_hours: int,
    check_days: int,
) -> bool {
    match range {
        Some(range) => (range.start as int, range.end as int) == window_at(
            now,
            lag_hours,
            check_days,
        ),
        None => window_at(now, lag_hours, check_days).0 < i64::MIN,
    }
}

/// The window of a reconciliation at the time `now`, or nothing where its
/// bounds are not seconds that 64 bits can hold.
pub fn time_range_at(now: i64, lag_hours: u32, check_days: u32) -> (range: Option<TimeRange>)
    ensures
        match range {
            Some(range) => (range.start as int, range.end as int) == window_at(
                now as int,
                lag_hours as int,
                check_days as int,
            ),
            None => window_at(now as int, lag_hours as int, check_days as int).0 < i64::MIN,
        },
{
    let lag: i64 = lag_hours as i64 * SECONDS_PER_HOUR;
    let span: i64 = check_days as i64 * SECONDS_PER_DAY;
    if now < i64::MIN + lag {
        return None;
    }
    let end: i64 = now - lag;
    if end < i64::MIN + span {
        return None;
    }
    Some(TimeRange { start: end - span, end })
}

/// The bounds of a bucket of `length` seconds that begins at `start`: its
/// first second and the first second after it, or nothing where that second
/// is beyond what 32 bits can hold.
pub fn bucket_window(start: u32, length: u32) -> (window: Option<(u32, u32)>)
    ensures
        match window {
            Some(w) => w.0 == start && w.1 == start + length,
            None => start + length > u32::MAX,
        },
{
    if length > u32::MAX - start {
        None
    } else {
        Some((start, start + length))
    }
}

/// What a reconciliation has found and done.
#[derive(Debug, Clone, PartialEq, Eq)]
pub struct SyncStats {
    pub total_tables: usize,
    pub diff_hours: usize,
    pub diff_minutes: usize,
    pub synced_records: u64,
    pub errors: Vec<String>,
}

impl Default for SyncStats {
    fn default() -> (stats: SyncStats)
        ensures
            stats.total_tables == 0,
            stats.diff_hours == 0,
            stats.diff_minutes == 0,
            stats.synced_records == 0,
            stats.errors@.len() == 0,
    {
        SyncStats {
            total_tables: 0,
            diff_hours: 0,
            diff_minutes: 0,
            synced_records: 0,
            errors: Vec::new(),
        }
    }
}

impl SyncStats {
    /// Whether the reconciliation went through without error.
    pub fn is_clean(&self) -> (clean: bool)
        ensures
            clean == (self.errors@.len() == 0),
    {
        self.errors.len() == 0
    }

    /// Takes note of the hours that differ in one pair of tables.
    pub fn note_hours(&mut self, hours: usize)
        requires
            old(self).diff_hours + hours <= usize::MAX,
        ensures
            *final(self) == (SyncStats {
                diff_hours: (old(self).diff_hours + hours) as usize,
                ..*old(self)
            }),
    {
        self.diff_hours = self.diff_hours + hours;
    }

    /// Takes note of the minutes that differ in one hour.
    pub fn note_minutes(&mut self, minutes: usize)
        requires
            old(self).diff_minutes + minutes <= usize::MAX,
        ensures
            *final(self) == (SyncStats {
                diff_minutes: (old(self).diff_minutes + minutes) as usize,
                ..*old(self)
            }),
    {
        self.diff_minutes = self.diff_minutes + minutes;
    }

    /// Takes note of the rows that the replay of one minute has copied.
    pub fn note_synced(&mut self, records: u64)
        requires
            old(self).synced_records + records <= u64::MAX,
        ensures
            *final(self) == (SyncStats {
                synced_records: (old(self).synced_records + records) as u64,
                ..*old(self)
            }),
    {
        self.synced_records = self.synced_records + records;
    }

    /// Takes note of an error; the reconciliation goes on.
    pub fn note_error(&mut self, message: String)
        ensures
            final(self).errors@ == old(self).errors@.push(message),
            final(self).total_tables == old(self).total_tables,
            final(self).diff_hours == old(self).diff_hours,
            final(self).diff_minutes == old(self).diff_minutes,
            final(self).synced_records == old(self).synced_records,
    {
        self.errors.push(message);
    }
}

/// The message of an error that arose for a pair of tables.
pub open spec fn table_error_text(local: Seq<char>, remote: Seq<char>, detail: Seq<char>) -> Seq<
    char,
> {
    local + " -> "@ + remote + ": "@ + detail
}

/// The message of an error that arose for one hour of a pair of tables;
/// `hour` is the text of the hour.
pub open spec fn hour_error_text(
    local: Seq<char>,
    remote: Seq<char>,
    hour: Seq<char>,
    detail: Seq<char>,
) -> Seq<char> {
    local + " -> "@ + remote + ": hour "@ + hour + ": "@ + detail
}

/// The message of an error that arose for the minute that begins at `minute`.
pub open spec fn minute_error_text(minute: u32, detail: Seq<char>) -> Seq<char> {
    "minute "@ + decimal(minute as nat) + ": "@ + detail
}

impl SyncStats {
    /// Takes note of an error that arose for a pair of tables.
    pub fn note_table_error(&mut self, local: &str, remote: &str, detail: &str)
        ensures
            final(self).errors@.len() == old(self).errors@.len() + 1,
            final(self).errors@.last()@ == table_error_text(local@, remote@, detail@),
            final(self).errors@.drop_last() == old(self).errors@,
            final(self).total_tables == old(self).total_tables,
            final(self).diff_hours == old(self).diff_hours,
            final(self).diff_minutes == old(self).diff_minutes,
            final(self).synced_records == old(self).synced_records,
    {
        let message = String::from_str(local).concat(" -> ").concat(remote).concat(": ").concat(
            detail,
        );
        self.errors.push(message);
        assert(self.errors@.drop_last() =~= old(self).errors@);
    }

    /// Takes note of an error that arose for one hour of a pair of tables.
    pub fn note_hour_error(&mut self, local: &str, remote: &str, hour: &str, detail: &str)
        ensures
            final(self).errors@.len() == old(self).errors@.len() + 1,
            final(self).errors@.last()@ == hour_error_text(local@, remote@, hour@, detail@),
            final(self).errors@.drop_last() == old(self).errors@,
            final(self).total_tables == old(self).total_tables,
            final(self).diff_hours == old(self).diff_hours,
            final(self).diff_minutes == old(self).diff_minutes,
            final(self).synced_records == old(self).synced_records,
    {
        let message = String::from_str(local).concat(" -> ").concat(remote).concat(
            ": hour ",
        ).concat(hour).concat(": ").concat(detail);
        self.errors.push(message);
        assert(self.errors@.drop_last() =~= old(self).errors@);
    }

    /// Takes note of an error that arose for one minute.
    pub fn note_minute_error(&mut self, minute: u32, detail: &str)
        ensures
            final(self).errors@.len() == old(self).errors@.len() + 1,
            final(self).errors@.last()@ == minute_error_text(minute, detail@),
            final(self).errors@.drop_last() == old(self).errors@,
            final(self).total_tables == old(self).total_tables,
            final(self).diff_hours == old(self).diff_hours,
            final(self).diff_minutes == old(self).diff_minutes,
            final(self).synced_records == old(self).synced_records,
    {
        let mut message = String::from_str("minute ");
        push_decimal(&mut message, minute as u64);
        message.append(": ");
        message.append(detail);
        self.errors.push(message);
        assert(self.errors@.drop_last() =~= old(self).errors@);
    }
}

/// The question that counts the distinct rows of `table` per bucket, for the
/// rows whose time lies in `[start, end)`. `bucket_fn` is the function of the
/// store that gives the start of the bucket of a time, and `name` the name of
/// the bucket in the answer.
pub open spec fn count_query_text(
    table: Seq<char>,
    bucket_fn: Seq<char>,
    name: Seq<char>,
    start: u32,
    end: u32,
) -> Seq<char> {
    "SELECT toUnixTimestamp("@ + bucket_fn + "(toDateTime(timestamp))) as "@ + name
        + ", uniqExact(tuple(signature, instruction_index)) as unique_count FROM "@ + table
        + " WHERE timestamp >= "@ + decimal(start as nat) + " AND timestamp < "@ + decimal(
        end as nat,
    ) + " GROUP BY "@ + name + " ORDER BY "@ + name
}

fn count_query(table: &str, bucket_fn: &str, name: &str, start: u32, end: u32) -> (query: String)
    ensures
        query@ == count_query_text(table@, bucket_fn@, name@, start, end),
{
    let mut query = String::from_str("SELECT toUnixTimestamp(");
    query.append(bucket_fn);
    query.append("(toDateTime(timestamp))) as ");
    query.append(name);
    query.append(", uniqExact(tuple(signature, instruction_index)) as unique_count FROM ");
    query.append(table);
    query.append(" WHERE timestamp >= ");
    push_decimal(&mut query, start as u64);
    query.append(" AND timestamp < ");
    push_decimal(&mut query, end as u64);
    query.append(" GROUP BY ");
    query.append(name);
    query.append(" ORDER BY ");
    query.append(name);
    query
}

/// The question that counts the rows of `table` whose time lies in
/// `[start, end)`.
pub open spec fn record_count_query_text(table: Seq<char>, start: u32, end: u32) -> Seq<char> {
    "SELECT count() as cnt FROM "@ + table + " WHERE timestamp >= "@ + decimal(start as nat)
        + " AND timestamp < "@ + decimal(end as nat)
}

/// The host and port of a store, taken from its address: the address without
/// any `http://` and then without any `https://` at its beginning.
pub open spec fn host_of(url: Seq<char>) -> Seq<char> {
    without_leading(without_leading(url, "http://"@), "https://"@)
}

/// The statement that makes the remote store take, from the local store, the
/// rows of `local_table` whose time lies in `[start, end)` into
/// `remote_table`.
pub open spec fn replay_query_text(
    config: SyncConfig,
    local_table: Seq<char>,
    remote_table: Seq<char>,
    start: u32,
    end: u32,
) -> Seq<char> {
    "INSERT INTO "@ + remote_table + " SELECT * FROM remote('"@ + host_of(config.local_url@)
        + "', "@ + config.local_database@ + ", "@ + local_table + ", '"@ + config.local_user@
        + "', '"@ + config.local_password@ + "') WHERE timestamp >= "@ + decimal(start as nat)
        + " AND timestamp < "@ + decimal(end as nat)
}

/// What is to be done for one minute in which the stores differ.
#[derive(Debug, Clone, PartialEq, Eq)]
pub struct MinuteSync {
    pub start: u32,
    pub end: u32,
    /// The question that counts the rows of the minute in the local store.
    pub count_query: String,
    /// The statement that replays the minute; it is run where the count is
    /// above zero.
    pub replay_query: String,
}

/// Reconciles the tables of one configuration.
#[derive(Debug, Clone)]
pub struct SyncChecker {
    pub config: SyncConfig,
}

impl SyncChecker {
    pub fn new(config: SyncConfig) -> (checker: SyncChecker)
        ensures
            checker.config == config,
    {
        SyncChecker { config }
    }

    /// The statistics at the start of a reconciliation: the number of pairs
    /// of tables, and nothing found yet.
    pub fn start(&self) -> (stats: SyncStats)
        ensures
            stats.total_tables == self.config.table_mappings@.len(),
            stats.diff_hours == 0,
            stats.diff_minutes == 0,
            stats.synced_records == 0,
            stats.errors@.len() == 0,
    {
        let mut stats = SyncStats::default();
        stats.total_tables = self.config.table_mappings.len();
        stats
    }

    /// The window of a reconciliation at the time `now`.
    pub fn time_range_at(&self, now: i64) -> (range: Option<TimeRange>)
        ensures
            match range {
                Some(range) => (range.start as int, range.end as int) == window_at(
                    now as int,
                    self.config.lag_hours as int,
                    self.config.check_days as int,
                ),
                None => window_at(
                    now as int,
                    self.config.lag_hours as int,
                    self.config.check_days as int,
                ).0 < i64::MIN,
            },
    {
        time_range_at(now, self.config.lag_hours, self.config.check_days)
    }

    /// The window of a reconciliation that starts now: the window at some
    /// moment that is not before the Unix epoch. It ends `lag_hours` hours
    /// before that moment and spans `check_days` days; whatever the settings,
    /// its bounds are seconds that 64 bits hold, so a window is always given.
    pub fn calculate_time_range(&self) -> (range: Option<TimeRange>)
        ensures
            range is Some,
            exists|now: i64|
                now >= 0 && #[trigger] is_range_at(
                    range,
                    now as int,
                    self.config.lag_hours as int,
                    self.config.check_days as int,
                ),
            range->0.end - range->0.start == self.config.check_days * 86400,
            range->0.end >= -(self.config.lag_hours * 3600),
    {
        let (now, _) = current_time();
        let range = self.time_range_at(now);
        assert(is_range_at(
            range,
            now as int,
            self.config.lag_hours as int,
            self.config.check_days as int,
        ));
        range
    }

    /// The question that counts the distinct rows of `table` by the hour, for
    /// the rows whose time lies in `[start, end)`.
    pub fn hourly_query(table: &str, start: u32, end: u32) -> (query: String)
        ensures
            query@ == count_query_text(table@, "toStartOfHour"@, "hour"@, start, end),
    {
        count_query(table, "toStartOfHour", "hour", start, end)
    }

    /// The question that counts the distinct rows of `table` by the minute,
    /// for the rows whose time lies in `[start, end)`.
    pub fn minutely_query(table: &str, start: u32, end: u32) -> (query: String)
        ensures
            query@ == count_query_text(table@, "toStartOfMinute"@, "minute"@, start, end),
    {
        count_query(table, "toStartOfMinute", "minute", start, end)
    }

    /// The hours in which the two stores differ, each once, in ascending
    /// order.
    pub fn compare_hourly(
        local_counts: &Vec<BucketCount>,
        remote_counts: &Vec<BucketCount>,
    ) -> (hours: Vec<u32>)
        ensures
            ascending(hours@),
            forall|b: u32| hours@.contains(b) <==> differs(local_counts@, remote_counts@, b),
            hours@.len() <= local_counts@.len() + remote_counts@.len(),
    {
        diff_buckets(local_counts, remote_counts)
    }

    /// What is to be done for the minute that begins at `minute_ts`, or
    /// nothing where the minute ends beyond what 32 bits can hold.
    pub fn sync_minute_data(&self, local_table: &str, remote_table: &str, minute_ts: u32) -> (sync:
        Option<MinuteSync>)
        ensures
            minute_ts + 60 > u32::MAX ==> sync is None,
            minute_ts + 60 <= u32::MAX ==> {
                &&& sync is Some
                &&& sync->0.start == minute_ts
                &&& sync->0.end == minute_ts + 60
                &&& sync->0.count_query@ == record_count_query_text(
                    local_table@,
                    sync->0.start,
                    sync->0.end,
                )
                &&& sync->0.replay_query@ == replay_query_text(
                    self.config,
                    local_table@,
                    remote_table@,
                    sync->0.start,
                    sync->0.end,
                )
            },
    {
        let (start, end) = match bucket_window(minute_ts, 60) {
            Some(window) => window,
            None => {
                return None;
            },
        };
        let mut count_query = String::from_str("SELECT count() as cnt FROM ");
        count_query.append(local_table);
        count_query.append(" WHERE timestamp >= ");
        push_decimal(&mut count_query, start as u64);
        count_query.append(" AND timestamp < ");
        push_decimal(&mut count_query, end as u64);

        let url = to_chars(self.config.local_url.as_str());
        let at = skip_leading(&url, 0, "http://");
        let from = skip_leading(&url, at, "https://");
        let host = slice_text(self.config.local_url.as_str(), from, url.len());
        proof {
            assert(url@.skip(0) =~= url@);
            assert(url@.subrange(from as int, url@.len() as int) =~= url@.skip(from as int));
        }
        let mut replay_query = String::from_str("INSERT INTO ");
        replay_query.append(remote_table);
        replay_query.append(" SELECT * FROM remote('");
        replay_query.append(host.as_str());
        replay_query.append("', ");
        replay_query.append(self.config.local_database.as_str());
        replay_query.append(", ");
        replay_query.append(local_table);
        replay_query.append(", '");
        replay_query.append(self.config.local_user.as_str());
        replay_query.append("', '");
        replay_query.append(self.config.local_password.as_str());
        replay_query.append("') WHERE timestamp >= ");
        push_decimal(&mut replay_query, start as u64);
        replay_query.append(" AND timestamp < ");
        push_decimal(&mut replay_query, end as u64);
        Some(MinuteSync { start, end, count_query, replay_query })
    }

    /// The minutes of one hour to replay: those in which the two stores
    /// differ, each once, in ascending order. Their number is added to the
    /// statistics.
    pub fn compare_and_sync_minutely(
        local_counts: &Vec<BucketCount>,
        remote_counts: &Vec<BucketCount>,
        stats: &mut SyncStats,
    ) -> (minutes: Vec<u32>)
        requires
            old(stats).diff_minutes + local_counts@.len() + remote_counts@.len() <= usize::MAX,
        ensures
            ascending(minutes@),
            forall|b: u32| minutes@.contains(b) <==> differs(local_counts@, remote_counts@, b),
            minutes@.len() <= local_counts@.len() + remote_counts@.len(),
            final(stats).diff_minutes == old(stats).diff_minutes + minutes@.len(),
            final(stats).total_tables == old(stats).total_tables,
            final(stats).diff_hours == old(stats).diff_hours,
            final(stats).synced_records == old(stats).synced_records,
            final(stats).errors == old(stats).errors,
    {
        let minutes = diff_buckets(local_counts, remote_counts);
        stats.note_minutes(minutes.len());
        minutes
    }

    /// Whether the replay of a minute has anything to copy: the local store
    /// holds rows in it.
    pub fn needs_replay(record_count: u64) -> (needed: bool)
        ensures
            needed == (record_count > 0),
    {
        record_count > 0
    }
}

/// At most as many buckets differ as the two stores gave answers.
pub proof fn lemma_diff_is_short(
    local: Seq<BucketCount>,
    remote: Seq<BucketCount>,
    buckets: Seq<u32>,
)
    requires
        ascending(buckets),
        forall|b: u32| buckets.contains(b) <==> differs(local, remote, b),
    ensures
        buckets.len() <= local.len() + remote.len(),
{
    let listed = local.map_values(|c: BucketCount| c.bucket) + remote.map_values(
        |c: BucketCount| c.bucket,
    );
    assert(buckets.no_duplicates());
    assert forall|b: u32| buckets.to_set().contains(b) implies listed.to_set().contains(b) by {
        assert(buckets.contains(b));
        if count_in(local, b) is Some {
            lemma_counted_bucket_is_listed(local, b, local.len() as int);
            let j = choose|j: int| 0 <= j < local.len() && (#[trigger] local[j]).bucket == b;
            assert(listed[j] == b);
        } else {
            lemma_counted_bucket_is_listed(remote, b, remote.len() as int);
            let j = choose|j: int| 0 <= j < remote.len() && (#[trigger] remote[j]).bucket == b;
            assert(listed[local.len() + j] == b);
        }
    }
    buckets.unique_seq_to_set();
    listed.lemma_cardinality_of_set();
    vstd::set_lib::lemma_len_subset(buckets.to_set(), listed.to_set());
}

} // verus!
