//! The record of the archive units that have been processed: a set of
//! prefixes, kept in a log of one line per completion.

use vstd::prelude::*;
use vstd::string::StringExecFns;
use vstd::string::StrSliceExecFns;
use crate::block_parser::file_scanner::{join_path, joined};
use crate::common::clock::current_timestamp;
use crate::common::text::{
    comes_before, fields, fields_at, is_space, lemma_fields_around_sep,
    lemma_fields_without_sep, lemma_text_before_irreflexive, lemma_text_before_total,
    lemma_text_before_transitive, lemma_trimmed_unchanged, range_is, same_text, slice_text,
    split_bounds, text_before, to_chars, trim_bounds, trimmed,
};

verus! {

/// The texts of a run of strings.
pub open spec fn texts(strings: Seq<String>) -> Seq<Seq<char>> {
    strings.map_values(|s: String| s@)
}

/// Whether each text comes strictly before the next, and so before all later
/// ones.
pub open spec fn increasing(list: Seq<Seq<char>>) -> bool {
    forall|j: int, k: int| 0 <= j < k < list.len() ==> text_before(#[trigger] list[j],
        #[trigger] list[k])
}

/// Whether a trimmed line of the log is blank or a comment.
pub open spec fn is_remark(line: Seq<char>) -> bool {
    line.len() == 0 || line[0] == '#'
}

/// The prefix that a line of the log records as completed: the second of
/// exactly three fields parted by commas, the third being `completed`, on a
/// line that is neither blank nor a comment.
pub open spec fn completed_prefix(line: Seq<char>) -> Option<Seq<char>> {
    let entry = trimmed(line);
    let parts = fields(entry, ',');
    if !is_remark(entry) && parts.len() == 3 && parts[2] == "completed"@ {
        Some(parts[1])
    } else {
        None
    }
}

/// The prefixes that the lines of a log record as completed.
pub open spec fn completed_prefixes(lines: Seq<Seq<char>>) -> Set<Seq<char>> {
    Set::new(
        |prefix: Seq<char>|
            exists|i: int| 0 <= i < lines.len() && completed_prefix(#[trigger] lines[i])
                == Some(prefix),
    )
}

/// The line that records the completion of `prefix` at the time `timestamp`.
pub open spec fn completion_record(timestamp: Seq<char>, prefix: Seq<char>) -> Seq<char> {
    timestamp + ","@ + prefix + ",completed"@
}

/// Whether `lines` are the completion records of `prefixes` at `timestamp`, one
/// per prefix, in their order.
pub open spec fn records_at(
    lines: Seq<String>,
    prefixes: Seq<String>,
    timestamp: Seq<char>,
) -> bool {
    &&& lines.len() == prefixes.len()
    &&& forall|i: int|
        0 <= i < lines.len() ==> (#[trigger] lines[i])@ == completion_record(
            timestamp,
            prefixes[i]@,
        )
}

/// The prefix that a line of the log is about, whatever its state: the second
/// of two or more fields, on a line that is neither blank nor a comment.
pub open spec fn entry_prefix(line: Seq<char>) -> Option<Seq<char>> {
    let entry = trimmed(line);
    let parts = fields(entry, ',');
    if !is_remark(entry) && parts.len() >= 2 {
        Some(parts[1])
    } else {
        None
    }
}

/// Whether a cleanup keeps line `i`: blank lines and comments stay; of the
/// lines about one prefix the last stays; a line about no prefix goes.
pub open spec fn is_kept(lines: Seq<Seq<char>>, i: int) -> bool {
    is_remark(trimmed(lines[i])) || (entry_prefix(lines[i]) is Some && forall|j: int|
        i < j < lines.len() ==> entry_prefix(#[trigger] lines[j]) != entry_prefix(lines[i]))
}

/// What a cleanup leaves of the first `n` lines: the kept lines, trimmed, in
/// their order.
pub open spec fn cleaned_before(lines: Seq<Seq<char>>, n: int) -> Seq<Seq<char>>
    decreases n,
{
    if n <= 0 {
        Seq::empty()
    } else if is_kept(lines, n - 1) {
        cleaned_before(lines, n - 1).push(trimmed(lines[n - 1]))
    } else {
        cleaned_before(lines, n - 1)
    }
}

/// What a cleanup leaves of a log.
pub open spec fn cleaned(lines: Seq<Seq<char>>) -> Seq<Seq<char>> {
    cleaned_before(lines, lines.len() as int)
}

/// The set of processed prefixes and the place of its log.
#[derive(Debug)]
pub struct ProcessedTracker {
    log_path: String,
    processed_set: Vec<String>,
}

/// What a line of the log holds, once read.
struct LogLine {
    text: String,
    remark: bool,
    prefix: Option<String>,
    completed: bool,
}

impl LogLine {
    spec fn describes(&self, line: Seq<char>) -> bool {
        &&& self.text@ == trimmed(line)
        &&& self.remark == is_remark(trimmed(line))
        &&& match self.prefix {
            Some(p) => entry_prefix(line) == Some(p@),
            None => entry_prefix(line) is None,
        }
        &&& self.completed == (completed_prefix(line) is Some)
        &&& self.completed ==> self.prefix is Some && completed_prefix(line) == Some(
            self.prefix->0@,
        )
    }
}

fn read_line(line: &str) -> (read: LogLine)
    ensures
        read.describes(line@),
{
    let chars = to_chars(line);
    let (from, to) = trim_bounds(&chars);
    let text = slice_text(line, from, to);
    if from == to || chars[from] == '#' {
        assert(text@.len() > 0 ==> text@[0] == chars@[from as int]);
        return LogLine { text, remark: true, prefix: None, completed: false };
    }
    assert(text@[0] == chars@[from as int]);
    let bounds = split_bounds(&chars, ',', from, to);
    assert(fields_at(chars@, bounds@) == fields(trimmed(line@), ','));
    if bounds.len() < 2 {
        return LogLine { text, remark: false, prefix: None, completed: false };
    }
    assert(fields_at(chars@, bounds@)[1] == chars@.subrange(
        bounds@[1].0 as int,
        bounds@[1].1 as int,
    ));
    let prefix = slice_text(line, bounds[1].0, bounds[1].1);
    let completed = bounds.len() == 3 && range_is(&chars, bounds[2].0, bounds[2].1, "completed");
    proof {
        if bounds@.len() == 3 {
            assert(fields_at(chars@, bounds@)[2] == chars@.subrange(
                bounds@[2].0 as int,
                bounds@[2].1 as int,
            ));
        }
    }
    LogLine { text, remark: false, prefix: Some(prefix), completed }
}

/// Putting a text into a run of texts adds it to the set of them.
proof fn lemma_insert_to_set(list: Seq<Seq<char>>, at: int, text: Seq<char>)
    requires
        0 <= at <= list.len(),
    ensures
        list.insert(at, text).to_set() == list.to_set().insert(text),
{
    let longer = list.insert(at, text);
    assert forall|x: Seq<char>| longer.to_set().contains(x) <==> list.to_set().insert(
        text,
    ).contains(x) by {
        if longer.contains(x) {
            let i = choose|i: int| 0 <= i < longer.len() && longer[i] == x;
            if i < at {
                assert(list[i] == x);
            } else if i > at {
                assert(list[i - 1] == x);
            }
        }
        if list.contains(x) {
            let i = choose|i: int| 0 <= i < list.len() && list[i] == x;
            if i < at {
                assert(longer[i] == x);
            } else {
                assert(longer[i + 1] == x);
            }
        }
        if x == text {
            assert(longer[at] == x);
        }
    }
    assert(longer.to_set() =~= list.to_set().insert(text));
}

/// Texts that increase are all different.
proof fn lemma_increasing_distinct(list: Seq<Seq<char>>)
    requires
        increasing(list),
    ensures
        list.no_duplicates(),
        list.to_set().len() == list.len(),
{
    assert forall|i: int, j: int| 0 <= i < list.len() && 0 <= j < list.len()
        && i != j implies list[i]
        != list[j] by {
        lemma_text_before_irreflexive(list[i]);
        if i < j {
            assert(text_before(list[i], list[j]));
        } else {
            assert(text_before(list[j], list[i]));
        }
    }
    list.unique_seq_to_set();
}

impl ProcessedTracker {
    #[verifier::type_invariant]
    spec fn ordered(&self) -> bool {
        increasing(texts(self.processed_set@))
    }

    /// The set of processed prefixes.
    pub closed spec fn view(&self) -> Set<Seq<char>> {
        texts(self.processed_set@).to_set()
    }

    /// The path of the log.
    pub closed spec fn path(&self) -> Seq<char> {
        self.log_path@
    }

    /// A tracker that knows no processed prefix yet, with its log at
    /// `processed_files.log` in `processed_dir`.
    pub fn new(processed_dir: &str) -> (tracker: ProcessedTracker)
        ensures
            tracker@ == Set::<Seq<char>>::empty(),
            tracker.path() == joined(processed_dir@, "processed_files.log"@),
    {
        let tracker = ProcessedTracker {
            log_path: join_path(processed_dir, "processed_files.log"),
            processed_set: Vec::new(),
        };
        assert(texts(tracker.processed_set@).to_set() =~= Set::<Seq<char>>::empty());
        tracker
    }

    /// The path of the log.
    pub fn log_path(&self) -> (path: &str)
        ensures
            path@ == self.path(),
    {
        self.log_path.as_str()
    }

    /// Takes note that the unit of `prefix` has been processed. It is called
    /// once the record of the completion is in the log.
    pub fn insert(&mut self, prefix: &str)
        ensures
            final(self)@ == old(self)@.insert(prefix@),
            final(self).path() == old(self).path(),
    {
        proof {
            use_type_invariant(&*self);
        }
        let ghost before = texts(self.processed_set@);
        let mut at: usize = 0;
        while at < self.processed_set.len() && comes_before(
            self.processed_set[at].as_str(),
            prefix,
        )
            invariant
                at <= self.processed_set@.len(),
                before == texts(self.processed_set@),
                forall|j: int| 0 <= j < at ==> text_before(#[trigger] before[j], prefix@),
            decreases self.processed_set@.len() - at,
        {
            assert(before[at as int] == self.processed_set@[at as int]@);
            at = at + 1;
        }
        if at < self.processed_set.len() && same_text(self.processed_set[at].as_str(), prefix) {
            assert(before[at as int] == prefix@);
            assert(before.to_set().insert(prefix@) =~= before.to_set());
            return ;
        }
        let text = String::from_str(prefix);
        proof {
            let after = before.insert(at as int, prefix@);
            assert(texts(self.processed_set@.insert(at as int, text)) =~= after);
            assert forall|j: int, k: int| 0 <= j < k < after.len() implies text_before(
                #[trigger] after[j],
                #[trigger] after[k],
            ) by {
                if k < at {
                    assert(after[j] == before[j] && after[k] == before[k]);
                } else if k == at {
                    assert(after[j] == before[j]);
                } else if j == at {
                    // What stands at `at` and after it does not come before the
                    // new text and differs from it: it comes after it.
                    assert(after[k] == before[k - 1]);
                    assert(before[at as int] == self.processed_set@[at as int]@);
                    lemma_text_before_total(prefix@, before[at as int]);
                    if k - 1 > at {
                        assert(text_before(before[at as int], before[k - 1]));
                        lemma_text_before_transitive(prefix@, before[at as int], before[k - 1]);
                    }
                } else if j < at {
                    assert(after[j] == before[j] && after[k] == before[k - 1]);
                } else {
                    assert(after[j] == before[j - 1] && after[k] == before[k - 1]);
                }
            }
            lemma_insert_to_set(before, at as int, prefix@);
        }
        let mut list: Vec<String> = Vec::new();
        assert(increasing(texts(list@)));
        core::mem::swap(&mut self.processed_set, &mut list);
        list.insert(at, text);
        core::mem::swap(&mut self.processed_set, &mut list);
    }

    /// Forgets what it knew and takes the processed prefixes from the lines of
    /// the log.
    pub fn load_processed_list(&mut self, lines: &Vec<String>)
        ensures
            final(self)@ == completed_prefixes(texts(lines@)),
            final(self).path() == old(self).path(),
    {
        let mut list: Vec<String> = Vec::new();
        assert(increasing(texts(list@)));
        core::mem::swap(&mut self.processed_set, &mut list);
        assert(texts(self.processed_set@).to_set() =~= Set::<Seq<char>>::empty());
        let mut i: usize = 0;
        assert(self@ =~= completed_prefixes(texts(lines@).take(0)));
        while i < lines.len()
            invariant
                i <= lines@.len(),
                self@ == completed_prefixes(texts(lines@).take(i as int)),
                self.path() == old(self).path(),
            decreases lines@.len() - i,
        {
            let ghost known = texts(lines@).take(i as int);
            let ghost more = texts(lines@).take(i + 1);
            let read = read_line(lines[i].as_str());
            assert(texts(lines@)[i as int] == lines@[i as int]@);
            if read.completed {
                match &read.prefix {
                    Some(prefix) => {
                        self.insert(prefix.as_str());
                        proof {
                            assert forall|x: Seq<char>| completed_prefixes(more).contains(x)
                                <==> completed_prefixes(known).insert(prefix@).contains(x) by {
                                if completed_prefixes(more).contains(x) {
                                    let j = choose|j: int|
                                        0 <= j < more.len() && completed_prefix(#[trigger] more[j])
                                            == Some(x);
                                    if j < i {
                                        assert(known[j] == more[j]);
                                    }
                                }
                                if completed_prefixes(known).contains(x) {
                                    let j = choose|j: int|
                                        0 <= j < known.len() && completed_prefix(
                                            #[trigger] known[j],
                                        ) == Some(x);
                                    assert(more[j] == known[j]);
                                }
                                if x == prefix@ {
                                    assert(completed_prefix(more[i as int]) == Some(x));
                                }
                            }
                            assert(completed_prefixes(more) =~= completed_prefixes(known).insert(
                                prefix@,
                            ));
                        }
                    },
                    None => {},
                }
            } else {
                proof {
                    assert forall|x: Seq<char>| completed_prefixes(more).contains(x)
                        <==> completed_prefixes(known).contains(x) by {
                        if completed_prefixes(more).contains(x) {
                            let j = choose|j: int|
                                0 <= j < more.len() && completed_prefix(#[trigger] more[j])
                                    == Some(x);
                            if j < i {
                                assert(known[j] == more[j]);
                            }
                        }
                        if completed_prefixes(known).contains(x) {
                            let j = choose|j: int|
                                0 <= j < known.len() && completed_prefix(#[trigger] known[j])
                                    == Some(x);
                            assert(more[j] == known[j]);
                        }
                    }
                    assert(completed_prefixes(more) =~= completed_prefixes(known));
                }
            }
            i = i + 1;
        }
        assert(texts(lines@).take(lines@.len() as int) =~= texts(lines@));
    }

    /// Whether the unit of this prefix has been processed.
    pub fn is_processed(&self, prefix: &str) -> (processed: bool)
        ensures
            processed == self@.contains(prefix@),
    {
        let ghost list = texts(self.processed_set@);
        let mut i: usize = 0;
        while i < self.processed_set.len()
            invariant
                i <= self.processed_set@.len(),
                list == texts(self.processed_set@),
                forall|j: int| 0 <= j < i ==> #[trigger] list[j] != prefix@,
            decreases self.processed_set@.len() - i,
        {
            if same_text(self.processed_set[i].as_str(), prefix) {
                assert(list[i as int] == prefix@);
                return true;
            }
            assert(list[i as int] == self.processed_set@[i as int]@);
            i = i + 1;
        }
        false
    }

    /// The line that records the completion of `prefix` at `timestamp`.
    pub fn record_line(timestamp: &str, prefix: &str) -> (line: String)
        ensures
            line@ == completion_record(timestamp@, prefix@),
    {
        String::from_str(timestamp).concat(",").concat(prefix).concat(",completed")
    }

    /// The line that records the completion of `prefix` now: the completion
    /// record of the prefix at some time. The tracker itself is not changed.
    pub fn completion_line(prefix: &str) -> (line: String)
        ensures
            exists|timestamp: Seq<char>| line@ == completion_record(timestamp, prefix@),
    {
        let timestamp = current_timestamp();
        let line = Self::record_line(timestamp.as_str(), prefix);
        assert(line@ == completion_record(timestamp@, prefix@));
        line
    }

    /// Marks the unit of `prefix` as processed at the time `timestamp`, and
    /// gives the line to append to the log.
    pub fn mark_at(&mut self, prefix: &str, timestamp: &str) -> (line: String)
        ensures
            final(self)@ == old(self)@.insert(prefix@),
            final(self).path() == old(self).path(),
            line@ == completion_record(timestamp@, prefix@),
    {
        self.insert(prefix);
        Self::record_line(timestamp, prefix)
    }

    /// Marks the unit of `prefix` as processed now, and gives the line to
    /// append to the log: the completion record of the prefix at some time.
    pub fn mark_as_processed(&mut self, prefix: &str) -> (line: String)
        ensures
            final(self)@ == old(self)@.insert(prefix@),
            final(self).path() == old(self).path(),
            exists|timestamp: Seq<char>| line@ == completion_record(timestamp, prefix@),
    {
        let timestamp = current_timestamp();
        let line = self.mark_at(prefix, timestamp.as_str());
        assert(line@ == completion_record(timestamp@, prefix@));
        line
    }

    /// The number of processed prefixes.
    pub fn processed_count(&self) -> (count: usize)
        ensures
            count == self@.len(),
    {
        proof {
            use_type_invariant(self);
            lemma_increasing_distinct(texts(self.processed_set@));
        }
        self.processed_set.len()
    }

    /// The processed prefixes, each once, in increasing order.
    pub fn get_processed_prefixes(&self) -> (prefixes: Vec<String>)
        ensures
            texts(prefixes@).to_set() == self@,
            increasing(texts(prefixes@)),
            prefixes@.len() == self@.len(),
    {
        proof {
            use_type_invariant(self);
            lemma_increasing_distinct(texts(self.processed_set@));
        }
        let mut prefixes: Vec<String> = Vec::new();
        let mut i: usize = 0;
        while i < self.processed_set.len()
            invariant
                i <= self.processed_set@.len(),
                prefixes@ == self.processed_set@.take(i as int),
            decreases self.processed_set@.len() - i,
        {
            prefixes.push(self.processed_set[i].clone());
            assert(self.processed_set@.take(i + 1) =~= self.processed_set@.take(i as int).push(
                self.processed_set@[i as int],
            ));
            i = i + 1;
        }
        assert(self.processed_set@.take(self.processed_set@.len() as int)
            =~= self.processed_set@);
        prefixes
    }

    /// Marks the units of all `prefixes` as processed at the time `timestamp`,
    /// and gives the lines to append to the log, one per prefix, in their
    /// order.
    pub fn mark_batch_at(&mut self, prefixes: &Vec<String>, timestamp: &str) -> (lines: Vec<
        String,
    >)
        ensures
            final(self)@ == old(self)@.union(texts(prefixes@).to_set()),
            final(self).path() == old(self).path(),
            records_at(lines@, prefixes@, timestamp@),
    {
        let mut lines: Vec<String> = Vec::new();
        let mut i: usize = 0;
        assert(old(self)@.union(texts(prefixes@).take(0).to_set()) =~= old(self)@);
        while i < prefixes.len()
            invariant
                i <= prefixes@.len(),
                self@ == old(self)@.union(texts(prefixes@).take(i as int).to_set()),
                self.path() == old(self).path(),
                lines@.len() == i,
                forall|k: int|
                    0 <= k < i ==> (#[trigger] lines@[k])@ == completion_record(
                        timestamp@,
                        prefixes@[k]@,
                    ),
            decreases prefixes@.len() - i,
        {
            let ghost done = texts(prefixes@).take(i as int);
            let line = self.mark_at(prefixes[i].as_str(), timestamp);
            lines.push(line);
            proof {
                let more = texts(prefixes@).take(i + 1);
                assert(more =~= done.push(prefixes@[i as int]@));
                assert(more.to_set() =~= done.to_set().insert(prefixes@[i as int]@)) by {
                    assert(done.push(prefixes@[i as int]@) =~= done.insert(
                        done.len() as int,
                        prefixes@[i as int]@,
                    ));
                    lemma_insert_to_set(done, done.len() as int, prefixes@[i as int]@);
                }
                assert(old(self)@.union(done.to_set()).insert(prefixes@[i as int]@) =~= old(
                    self,
                )@.union(more.to_set()));
            }
            i = i + 1;
        }
        assert(texts(prefixes@).take(prefixes@.len() as int) =~= texts(prefixes@));
        lines
    }

    /// Marks the units of all `prefixes` as processed now, and gives the lines
    /// to append to the log: one completion record per prefix, in their order,
    /// all with the same time.
    pub fn mark_batch_as_processed(&mut self, prefixes: &Vec<String>) -> (lines: Vec<String>)
        ensures
            final(self)@ == old(self)@.union(texts(prefixes@).to_set()),
            final(self).path() == old(self).path(),
            exists|timestamp: Seq<char>| #[trigger] records_at(lines@, prefixes@, timestamp),
    {
        let timestamp = current_timestamp();
        let lines = self.mark_batch_at(prefixes, timestamp.as_str());
        assert(records_at(lines@, prefixes@, timestamp@));
        lines
    }

    /// The lines that a cleanup leaves of a log: each line trimmed; blank
    /// lines and comments as they are; of the lines about one prefix only the
    /// last.
    pub fn cleanup_log(lines: &Vec<String>) -> (kept: Vec<String>)
        ensures
            texts(kept@) == cleaned(texts(lines@)),
    {
        let ghost all = texts(lines@);
        let mut read: Vec<LogLine> = Vec::new();
        let mut i: usize = 0;
        while i < lines.len()
            invariant
                i <= lines@.len(),
                all == texts(lines@),
                read@.len() == i,
                forall|k: int| 0 <= k < i ==> (#[trigger] read@[k]).describes(all[k]),
            decreases lines@.len() - i,
        {
            let line = read_line(lines[i].as_str());
            assert(all[i as int] == lines@[i as int]@);
            read.push(line);
            i = i + 1;
        }
        let mut kept: Vec<String> = Vec::new();
        let mut i: usize = 0;
        assert(texts(kept@) =~= cleaned_before(all, 0));
        while i < read.len()
            invariant
                i <= read@.len(),
                read@.len() == all.len(),
                forall|k: int| 0 <= k < read@.len() ==> (#[trigger] read@[k]).describes(all[k]),
                texts(kept@) == cleaned_before(all, i as int),
            decreases read@.len() - i,
        {
            let line = &read[i];
            let keep = if line.remark {
                true
            } else {
                match &line.prefix {
                    Some(prefix) => {
                        let mut later = false;
                        let mut j: usize = i + 1;
                        while j < read.len() && !later
                            invariant
                                i < j <= read@.len(),
                                read@.len() == all.len(),
                                forall|k: int|
                                    0 <= k < read@.len() ==> (#[trigger] read@[k]).describes(
                                        all[k],
                                    ),
                                entry_prefix(all[i as int]) == Some(prefix@),
                                !later ==> forall|k: int|
                                    i < k < j ==> entry_prefix(#[trigger] all[k]) != Some(
                                        prefix@,
                                    ),
                                later ==> exists|k: int|
                                    i < k < all.len() && entry_prefix(#[trigger] all[k]) == Some(
                                        prefix@,
                                    ),
                            decreases read@.len() - j + (if later { 0int } else { 1int }),
                        {
                            let same = match &read[j].prefix {
                                Some(other) => same_text(other.as_str(), prefix.as_str()),
                                None => false,
                            };
                            if same {
                                assert(entry_prefix(all[j as int]) == Some(prefix@));
                                later = true;
                            } else {
                                j = j + 1;
                            }
                        }
                        !later
                    },
                    None => false,
                }
            };
            assert(keep == is_kept(all, i as int));
            if keep {
                let ghost before = kept@;
                kept.push(line.text.clone());
                assert(texts(before.push(line.text)) =~= texts(before).push(line.text@));
            }
            i = i + 1;
        }
        kept
    }
}

/// A completion that was recorded is read back: the line that `mark_as_processed`
/// gives for a prefix names that prefix as completed when the log is loaded,
/// provided that neither the time nor the prefix holds a comma and that the
/// time is a text that does not start with white space or `#`.
pub proof fn lemma_record_is_read_back(timestamp: Seq<char>, prefix: Seq<char>)
    requires
        timestamp.len() > 0,
        !is_space(timestamp[0]),
        timestamp[0] != '#',
        !timestamp.contains(','),
        !prefix.contains(','),
    ensures
        completed_prefix(completion_record(timestamp, prefix)) == Some(prefix),
        entry_prefix(completion_record(timestamp, prefix)) == Some(prefix),
{
    reveal_strlit(",");
    reveal_strlit(",completed");
    reveal_strlit("completed");
    let line = completion_record(timestamp, prefix);
    let word = "completed"@;
    assert(","@ =~= seq![',']);
    assert(",completed"@ =~= seq![','] + word);
    assert(line =~= timestamp + seq![','] + (prefix + seq![','] + word));
    assert(line[0] == timestamp[0]);
    assert(line.last() == 'd');
    lemma_trimmed_unchanged(line);
    assert(!word.contains(',')) by {
        if word.contains(',') {
            let i = choose|i: int| 0 <= i < word.len() && word[i] == ',';
        }
    }
    lemma_fields_around_sep(timestamp, prefix + seq![','] + word, ',');
    lemma_fields_around_sep(prefix, word, ',');
    lemma_fields_without_sep(timestamp, ',');
    lemma_fields_without_sep(prefix, ',');
    lemma_fields_without_sep(word, ',');
    assert(fields(line, ',') =~= seq![timestamp, prefix, word]);
}

/// Trimming a trimmed text changes nothing.
pub proof fn lemma_trimmed_twice(s: Seq<char>)
    ensures
        trimmed(trimmed(s)) == trimmed(s),
{
    crate::common::text::lemma_trim_start(s);
    crate::common::text::lemma_trim_end(s);
    let t = trimmed(s);
    if t.len() > 0 {
        assert(t[0] == s[crate::common::text::trim_start(s)]);
        assert(t.last() == s[crate::common::text::trim_end(s) - 1]);
        lemma_trimmed_unchanged(t);
    } else {
        assert(trimmed(t) =~= t) by {
            crate::common::text::lemma_trim_start(t);
            crate::common::text::lemma_trim_end(t);
        }
    }
}

/// Whether `line` is one of the first `n` lines, kept and trimmed.
pub open spec fn is_kept_line(lines: Seq<Seq<char>>, n: int, line: Seq<char>) -> bool {
    exists|i: int| 0 <= i < n && is_kept(lines, i) && #[trigger] trimmed(lines[i]) == line
}

/// The lines that a cleanup leaves are the kept lines, trimmed: each line left
/// comes from a kept line, and each kept line is left.
pub proof fn lemma_cleaned_lines(lines: Seq<Seq<char>>, n: int)
    requires
        0 <= n <= lines.len(),
    ensures
        forall|k: int|
            0 <= k < cleaned_before(lines, n).len() ==> is_kept_line(
                lines,
                n,
                #[trigger] cleaned_before(lines, n)[k],
            ),
        forall|i: int|
            0 <= i < n && is_kept(lines, i) ==> cleaned_before(lines, n).contains(
                #[trigger] trimmed(lines[i]),
            ),
    decreases n,
{
    if n > 0 {
        lemma_cleaned_lines(lines, n - 1);
        let before = cleaned_before(lines, n - 1);
        let now = cleaned_before(lines, n);
        assert forall|k: int| 0 <= k < now.len() implies is_kept_line(lines, n,
            #[trigger] now[k]) by {
            if k < before.len() {
                assert(now[k] == before[k]);
                assert(is_kept_line(lines, n - 1, before[k]));
                let i = choose|i: int|
                    0 <= i < n - 1 && is_kept(lines, i) && #[trigger] trimmed(lines[i])
                        == before[k];
                assert(0 <= i < n && is_kept(lines, i) && trimmed(lines[i]) == now[k]);
            } else {
                assert(is_kept(lines, n - 1) && trimmed(lines[n - 1]) == now[k]);
            }
        }
        assert forall|i: int| 0 <= i < n && is_kept(lines, i) implies now.contains(
            #[trigger] trimmed(lines[i]),
        ) by {
            if i < n - 1 {
                assert(before.contains(trimmed(lines[i])));
                let k = choose|k: int| 0 <= k < before.len() && before[k] == trimmed(lines[i]);
                assert(now[k] == trimmed(lines[i]));
            } else {
                assert(now[now.len() - 1] == trimmed(lines[i]));
            }
        }
    }
}

/// The last of the first `n` lines that is about `prefix`, or -1 where none
/// of them is.
pub open spec fn last_entry_of(lines: Seq<Seq<char>>, prefix: Seq<char>, n: int) -> int
    decreases n,
{
    if n <= 0 {
        -1
    } else if entry_prefix(lines[n - 1]) == Some(prefix) {
        n - 1
    } else {
        last_entry_of(lines, prefix, n - 1)
    }
}

proof fn lemma_last_entry_of(lines: Seq<Seq<char>>, prefix: Seq<char>, n: int)
    requires
        0 <= n <= lines.len(),
    ensures
        -1 <= last_entry_of(lines, prefix, n) < n,
        last_entry_of(lines, prefix, n) >= 0 ==> entry_prefix(
            lines[last_entry_of(lines, prefix, n)],
        ) == Some(prefix),
        forall|j: int|
            last_entry_of(lines, prefix, n) < j < n ==> entry_prefix(#[trigger] lines[j]) != Some(
                prefix,
            ),
    decreases n,
{
    if n > 0 && entry_prefix(lines[n - 1]) != Some(prefix) {
        lemma_last_entry_of(lines, prefix, n - 1);
    }
}

/// In a log whose entries all record completions, a cleanup loses no
/// completion and adds none: loading what it leaves gives the processed
/// prefixes that loading the log gives.
pub proof fn lemma_cleanup_keeps_completions(lines: Seq<Seq<char>>)
    requires
        forall|i: int|
            0 <= i < lines.len() && entry_prefix(#[trigger] lines[i]) is Some ==> completed_prefix(
                lines[i],
            ) == entry_prefix(lines[i]),
    ensures
        completed_prefixes(cleaned(lines)) == completed_prefixes(lines),
{
    let n = lines.len() as int;
    let left = cleaned(lines);
    lemma_cleaned_lines(lines, n);
    assert forall|x: Seq<char>| completed_prefixes(left).contains(x) <==> completed_prefixes(
        lines,
    ).contains(x) by {
        if completed_prefixes(left).contains(x) {
            let k = choose|k: int| 0 <= k < left.len() && completed_prefix(#[trigger] left[k])
                == Some(x);
            assert(is_kept_line(lines, n, left[k]));
            let i = choose|i: int|
                0 <= i < n && is_kept(lines, i) && #[trigger] trimmed(lines[i]) == left[k];
            lemma_trimmed_twice(lines[i]);
            assert(completed_prefix(lines[i]) == Some(x));
        }
        if completed_prefixes(lines).contains(x) {
            let i = choose|i: int| 0 <= i < n && completed_prefix(#[trigger] lines[i]) == Some(x);
            assert(entry_prefix(lines[i]) == Some(x));
            lemma_last_entry_of(lines, x, n);
            let j = last_entry_of(lines, x, n);
            assert(j >= i);
            assert(is_kept(lines, j));
            assert(completed_prefix(lines[j]) == Some(x));
            assert(left.contains(trimmed(lines[j])));
            let k = choose|k: int| 0 <= k < left.len() && left[k] == trimmed(lines[j]);
            lemma_trimmed_twice(lines[j]);
            assert(completed_prefix(left[k]) == Some(x));
        }
    }
    assert(completed_prefixes(left) =~= completed_prefixes(lines));
}

} // verus!
