//! Finding the archive units in a directory listing: the prefixes for which
//! both a `.meta` and a `.bin` file are there, newest first.

use vstd::prelude::*;
use vstd::string::StringExecFns;
use vstd::string::StrSliceExecFns;
use vstd::seq_lib::{to_multiset_build, to_multiset_insert};
use crate::common::text::{
    ends_with, fields, fields_at, lemma_fields_nonempty, parse_decimal, parse_u64, same_text,
    slice_text, split_bounds, to_chars,
};

verus! {

/// What a directory listing says of one entry.
#[derive(Debug, Clone, PartialEq, Eq)]
pub struct DirEntry {
    /// The name of the entry, without the directory.
    pub name: String,
    /// Whether the entry is a regular file.
    pub is_file: bool,
}

/// An archive unit: its prefix and where its two files are.
#[derive(Debug, Clone, PartialEq, Eq)]
pub struct FilePair {
    pub prefix: String,
    pub meta_path: String,
    pub bin_path: String,
}

/// Looks for archive units in the listings of one directory.
#[derive(Debug, Clone)]
pub struct FileScanner {
    data_dir: String,
}

/// `name` without its last `n` characters.
pub open spec fn without_last(name: Seq<char>, n: int) -> Seq<char> {
    name.subrange(0, name.len() - n)
}

/// The prefix that a file name stands for: what comes before `.meta` or `.bin`
/// at its end, if one of the two is there and something comes before it.
pub open spec fn prefix_of(name: Seq<char>) -> Option<Seq<char>> {
    if ".meta"@.is_suffix_of(name) {
        if name.len() == 5 {
            None
        } else {
            Some(without_last(name, 5))
        }
    } else if ".bin"@.is_suffix_of(name) {
        if name.len() == 4 {
            None
        } else {
            Some(without_last(name, 4))
        }
    } else {
        None
    }
}

/// The first slot of the range that a prefix names: the number before its
/// first `_`, or the whole prefix where it holds none.
pub open spec fn start_slot(prefix: Seq<char>) -> Option<u64> {
    parse_u64(fields(prefix, '_')[0])
}

/// The slot by which units are ordered: the start slot, and 0 for a prefix
/// that names none.
pub open spec fn slot_key(prefix: Seq<char>) -> u64 {
    match start_slot(prefix) {
        Some(slot) => slot,
        None => 0,
    }
}

/// `name` in the directory `dir`: `name` alone where it starts at the root, and
/// else `dir`, a `/` unless `dir` is empty or ends in one, and `name`.
pub open spec fn joined(dir: Seq<char>, name: Seq<char>) -> Seq<char> {
    if name.len() > 0 && name[0] == '/' {
        name
    } else if dir.len() == 0 || dir.last() == '/' {
        dir + name
    } else {
        dir + "/"@ + name
    }
}

/// Whether the listing holds a regular file of the given name.
pub open spec fn has_file(listing: Seq<DirEntry>, name: Seq<char>) -> bool {
    exists|i: int| 0 <= i < listing.len() && (#[trigger] listing[i]).is_file
        && listing[i].name@ == name
}

/// Whether `prefix` names a unit that can be processed: it names a start slot,
/// and both its files are in the listing as regular files.
pub open spec fn is_unit(listing: Seq<DirEntry>, prefix: Seq<char>) -> bool {
    &&& start_slot(prefix) is Some
    &&& has_file(listing, prefix + ".meta"@)
    &&& has_file(listing, prefix + ".bin"@)
}

/// Whether `pair` is the unit of its prefix in the listing of `dir`.
pub open spec fn is_pair_in(pair: FilePair, dir: Seq<char>, listing: Seq<DirEntry>) -> bool {
    &&& is_unit(listing, pair.prefix@)
    &&& pair.meta_path@ == joined(dir, pair.prefix@ + ".meta"@)
    &&& pair.bin_path@ == joined(dir, pair.prefix@ + ".bin"@)
}

/// Whether `pairs` holds a unit of the given prefix.
pub open spec fn lists_prefix(pairs: Seq<FilePair>, prefix: Seq<char>) -> bool {
    exists|k: int| 0 <= k < pairs.len() && (#[trigger] pairs[k]).prefix@ == prefix
}

/// Whether no two of `pairs` have the same prefix.
pub open spec fn distinct_prefixes(pairs: Seq<FilePair>) -> bool {
    forall|j: int, k: int|
        0 <= j < k < pairs.len() ==> (#[trigger] pairs[j]).prefix@ != (#[trigger] pairs[k]).prefix@
}

/// Whether `pairs` runs from the highest start slot down, a prefix without a
/// start slot counting as slot 0.
pub open spec fn newest_first(pairs: Seq<FilePair>) -> bool {
    forall|j: int, k: int|
        0 <= j < k < pairs.len() ==> slot_key((#[trigger] pairs[j]).prefix@) >= slot_key(
            (#[trigger] pairs[k]).prefix@,
        )
}

/// Whether `pairs` runs strictly from the highest start slot down.
pub open spec fn strictly_newest_first(pairs: Seq<FilePair>) -> bool {
    forall|j: int, k: int|
        0 <= j < k < pairs.len() ==> slot_key((#[trigger] pairs[j]).prefix@) > slot_key(
            (#[trigger] pairs[k]).prefix@,
        )
}

/// Joins a directory and a name as `joined` says.
pub fn join_path(dir: &str, name: &str) -> (path: String)
    ensures
        path@ == joined(dir@, name@),
{
    proof {
        reveal_strlit("/");
    }
    let dir_len = dir.unicode_len();
    if name.unicode_len() > 0 && name.get_char(0) == '/' {
        String::from_str(name)
    } else if dir_len == 0 || dir.get_char(dir_len - 1) == '/' {
        String::from_str(dir).concat(name)
    } else {
        String::from_str(dir).concat("/").concat(name)
    }
}

fn has_file_named(listing: &Vec<DirEntry>, name: &str) -> (found: bool)
    ensures
        found == has_file(listing@, name@),
{
    let mut i: usize = 0;
    while i < listing.len()
        invariant
            i <= listing@.len(),
            forall|j: int| 0 <= j < i ==> !((#[trigger] listing@[j]).is_file
                && listing@[j].name@ == name@),
        decreases listing@.len() - i,
    {
        if listing[i].is_file && same_text(listing[i].name.as_str(), name) {
            return true;
        }
        i = i + 1;
    }
    false
}

fn holds_prefix(pairs: &Vec<FilePair>, prefix: &str) -> (found: bool)
    ensures
        found == lists_prefix(pairs@, prefix@),
{
    let mut k: usize = 0;
    while k < pairs.len()
        invariant
            k <= pairs@.len(),
            forall|j: int| 0 <= j < k ==> (#[trigger] pairs@[j]).prefix@ != prefix@,
        decreases pairs@.len() - k,
    {
        if same_text(pairs[k].prefix.as_str(), prefix) {
            return true;
        }
        k = k + 1;
    }
    false
}

fn read_start_slot(prefix: &str) -> (slot: Option<u64>)
    ensures
        slot == start_slot(prefix@),
{
    let chars = to_chars(prefix);
    let bounds = split_bounds(&chars, '_', 0, chars.len());
    assert(chars@.subrange(0, chars@.len() as int) =~= prefix@);
    assert(fields_at(chars@, bounds@)[0] == chars@.subrange(
        bounds@[0].0 as int,
        bounds@[0].1 as int,
    ));
    parse_decimal(&chars, bounds[0].0, bounds[0].1)
}

impl FileScanner {
    pub fn new(data_dir: String) -> (scanner: FileScanner)
        ensures
            scanner.dir() == data_dir@,
    {
        FileScanner { data_dir }
    }

    /// The directory that this scanner looks at.
    pub closed spec fn dir(&self) -> Seq<char> {
        self.data_dir@
    }

    /// The units that can be processed, each once, from the highest start slot
    /// down: the prefixes that name a start slot and have both files in the
    /// listing as regular files.
    pub fn scan_available_files(&self, listing: &Vec<DirEntry>) -> (pairs: Vec<FilePair>)
        ensures
            forall|k: int|
                0 <= k < pairs@.len() ==> is_pair_in(#[trigger] pairs@[k], self.dir(), listing@),
            forall|prefix: Seq<char>|
                is_unit(listing@, prefix) ==> #[trigger] lists_prefix(pairs@, prefix),
            distinct_prefixes(pairs@),
            newest_first(pairs@),
    {
        proof {
            reveal_strlit(".meta");
        }
        let mut found: Vec<FilePair> = Vec::new();
        let mut i: usize = 0;
        while i < listing.len()
            invariant
                i <= listing@.len(),
                ".meta"@.len() == 5,
                forall|k: int|
                    0 <= k < found@.len() ==> is_pair_in(
                        #[trigger] found@[k],
                        self.dir(),
                        listing@,
                    ),
                forall|prefix: Seq<char>, j: int|
                    0 <= j < i && is_unit(listing@, prefix) && (#[trigger] listing@[j]).is_file
                        && listing@[j].name@ == prefix + ".meta"@ ==> #[trigger] lists_prefix(
                        found@,
                        prefix,
                    ),
                distinct_prefixes(found@),
            decreases listing@.len() - i,
        {
            let entry = &listing[i];
            let ghost before = found@;
            let mut added = false;
            if entry.is_file {
                let chars = to_chars(entry.name.as_str());
                if ends_with(&chars, ".meta") && chars.len() > 5 {
                    let prefix = slice_text(entry.name.as_str(), 0, chars.len() - 5);
                    assert(entry.name@ =~= prefix@ + ".meta"@) by {
                        assert(".meta"@ =~= entry.name@.subrange(
                            entry.name@.len() - 5,
                            entry.name@.len() as int,
                        ));
                    }
                    let bin_name = prefix.clone().concat(".bin");
                    let slot = self.extract_start_slot(prefix.as_str());
                    if slot.is_some() && has_file_named(listing, bin_name.as_str())
                        && !holds_prefix(&found, prefix.as_str()) {
                        let (meta_path, bin_path) = self.get_file_pair_paths(prefix.as_str());
                        let pair = FilePair { prefix, meta_path, bin_path };
                        found.push(pair);
                        added = true;
                        proof {
                            assert(is_pair_in(pair, self.dir(), listing@));
                            assert(found@[before.len() as int] == pair);
                        }
                    }
                }
            }
            proof {
                assert forall|prefix: Seq<char>, j: int|
                    0 <= j < i + 1 && is_unit(listing@, prefix) && (#[trigger] listing@[j]).is_file
                        && listing@[j].name@ == prefix + ".meta"@ implies #[trigger] lists_prefix(
                    found@,
                    prefix,
                ) by {
                    if j < i {
                        assert(lists_prefix(before, prefix));
                        let k = choose|k: int|
                            0 <= k < before.len() && (#[trigger] before[k]).prefix@ == prefix;
                        assert(found@[k] == before[k]);
                    } else {
                        // The entry at `i` is the `.meta` file of a unit.
                        assert((prefix + ".meta"@).len() == prefix.len() + 5);
                        assert(".meta"@.is_suffix_of(prefix + ".meta"@)) by {
                            assert((prefix + ".meta"@).subrange(prefix.len() as int,
                                prefix.len() as int + 5)
                                =~= ".meta"@);
                        }
                        assert(prefix.len() > 0) by {
                            if prefix.len() == 0 {
                                lemma_fields_nonempty(prefix, '_');
                                assert(fields(prefix, '_')[0] =~= Seq::<char>::empty());
                            }
                        }
                        assert((prefix + ".meta"@).subrange(0, prefix.len() as int) =~= prefix);
                        if added {
                            assert(found@[before.len() as int].prefix@ == prefix);
                        } else {
                            assert(lists_prefix(before, prefix));
                            let k = choose|k: int|
                                0 <= k < before.len() && (#[trigger] before[k]).prefix@ == prefix;
                            assert(found@[k] == before[k]);
                        }
                    }
                }
            }
            i = i + 1;
        }
        let ghost unsorted = found@;
        let pairs = Self::sort_by_start_slot(found);
        proof {
            lemma_same_pairs(unsorted, pairs@);
            assert forall|k: int| 0 <= k < pairs@.len() implies is_pair_in(
                #[trigger] pairs@[k],
                self.dir(),
                listing@,
            ) by {
                assert(unsorted.contains(pairs@[k]));
            }
            assert forall|prefix: Seq<char>| is_unit(listing@, prefix)
                implies #[trigger] lists_prefix(
                pairs@,
                prefix,
            ) by {
                let j = choose|j: int|
                    0 <= j < listing@.len() && (#[trigger] listing@[j]).is_file && listing@[j].name@
                        == prefix + ".meta"@;
                assert(lists_prefix(unsorted, prefix));
                let k = choose|k: int|
                    0 <= k < unsorted.len() && (#[trigger] unsorted[k]).prefix@ == prefix;
                assert(pairs@.contains(unsorted[k]));
            }
            lemma_distinct_kept(unsorted, pairs@);
        }
        pairs
    }

    /// The prefix that a file name stands for.
    pub fn extract_prefix_from_filename(&self, filename: &str) -> (prefix: Option<String>)
        ensures
            match prefix {
                Some(text) => prefix_of(filename@) == Some(text@),
                None => prefix_of(filename@) is None,
            },
    {
        proof {
            reveal_strlit(".meta");
            reveal_strlit(".bin");
        }
        let chars = to_chars(filename);
        if ends_with(&chars, ".meta") {
            if chars.len() == 5 {
                None
            } else {
                Some(slice_text(filename, 0, chars.len() - 5))
            }
        } else if ends_with(&chars, ".bin") {
            if chars.len() == 4 {
                None
            } else {
                Some(slice_text(filename, 0, chars.len() - 4))
            }
        } else {
            None
        }
    }

    /// The first slot of the range that a prefix names.
    pub fn extract_start_slot(&self, prefix: &str) -> (slot: Option<u64>)
        ensures
            slot == start_slot(prefix@),
    {
        read_start_slot(prefix)
    }

    /// Whether both files of `prefix` are in the listing as regular files.
    pub fn has_complete_file_pair(&self, prefix: &str, listing: &Vec<DirEntry>) -> (complete: bool)
        ensures
            complete == (has_file(listing@, prefix@ + ".meta"@) && has_file(
                listing@,
                prefix@ + ".bin"@,
            )),
    {
        let meta_name = String::from_str(prefix).concat(".meta");
        let bin_name = String::from_str(prefix).concat(".bin");
        has_file_named(listing, meta_name.as_str()) && has_file_named(listing, bin_name.as_str())
    }

    /// Where the two files of `prefix` are: first the `.meta`, then the `.bin`.
    pub fn get_file_pair_paths(&self, prefix: &str) -> (paths: (String, String))
        ensures
            paths.0@ == joined(self.dir(), prefix@ + ".meta"@),
            paths.1@ == joined(self.dir(), prefix@ + ".bin"@),
    {
        let meta_name = String::from_str(prefix).concat(".meta");
        let bin_name = String::from_str(prefix).concat(".bin");
        (
            join_path(self.data_dir.as_str(), meta_name.as_str()),
            join_path(self.data_dir.as_str(), bin_name.as_str()),
        )
    }

    /// Orders units from the highest start slot down. A prefix that names no
    /// start slot is placed as if its start slot were 0.
    pub fn sort_by_start_slot(pairs: Vec<FilePair>) -> (sorted: Vec<FilePair>)
        ensures
            sorted@.to_multiset() == pairs@.to_multiset(),
            newest_first(sorted@),
    {
        let mut rest = pairs;
        let mut sorted: Vec<FilePair> = Vec::new();
        let mut keys: Vec<u64> = Vec::new();
        proof {
            assert(sorted@.to_multiset().add(rest@.to_multiset()) =~= pairs@.to_multiset()) by {
                sorted@.to_multiset_ensures();
                assert(sorted@.to_multiset() =~= vstd::multiset::Multiset::empty());
            }
        }
        while rest.len() > 0
            invariant
                sorted@.to_multiset().add(rest@.to_multiset()) == pairs@.to_multiset(),
                keys@.len() == sorted@.len(),
                forall|k: int|
                    0 <= k < sorted@.len() ==> #[trigger] keys@[k] == slot_key(sorted@[k].prefix@),
                forall|j: int, k: int| 0 <= j < k < keys@.len() ==> keys@[j] >= keys@[k],
            decreases rest@.len(),
        {
            let ghost rest_before = rest@;
            let ghost sorted_before = sorted@;
            let ghost keys_before = keys@;
            let pair = rest.pop().unwrap();
            let key = match read_start_slot(pair.prefix.as_str()) {
                Some(slot) => slot,
                None => 0,
            };
            let mut at: usize = 0;
            while at < keys.len() && keys[at] >= key
                invariant
                    at <= keys@.len(),
                    forall|j: int| 0 <= j < at ==> keys@[j] >= key,
                decreases keys@.len() - at,
            {
                at = at + 1;
            }
            sorted.insert(at, pair);
            keys.insert(at, key);
            proof {
                assert(rest_before =~= rest@.push(pair));
                to_multiset_build(rest@, pair);
                to_multiset_insert(sorted_before, at as int, pair);
                assert(sorted@.to_multiset().add(rest@.to_multiset())
                    =~= sorted_before.to_multiset().add(
                    rest_before.to_multiset(),
                ));
                assert forall|k: int| 0 <= k < sorted@.len()
                    implies #[trigger] keys@[k] == slot_key(
                    sorted@[k].prefix@,
                ) by {
                    if k < at {
                        assert(keys@[k] == keys_before[k]);
                    } else if k > at {
                        assert(keys@[k] == keys_before[k - 1]);
                    }
                }
                assert forall|j: int, k: int| 0 <= j < k < keys@.len() implies keys@[j]
                    >= keys@[k] by {
                    if k < at {
                        assert(keys@[j] == keys_before[j] && keys@[k] == keys_before[k]);
                    } else if k == at {
                        assert(keys@[j] == keys_before[j]);
                    } else if j < at {
                        assert(keys@[j] == keys_before[j] && keys@[k] == keys_before[k - 1]);
                    } else if j == at {
                        assert(keys@[k] == keys_before[k - 1]);
                    } else {
                        assert(keys@[j] == keys_before[j - 1] && keys@[k] == keys_before[k - 1]);
                    }
                }
            }
        }
        proof {
            assert(rest@.to_multiset() =~= vstd::multiset::Multiset::empty()) by {
                rest@.to_multiset_ensures();
            }
            assert(sorted@.to_multiset() =~= pairs@.to_multiset());
            assert forall|j: int, k: int| 0 <= j < k < sorted@.len() implies slot_key(
                (#[trigger] sorted@[j]).prefix@,
            ) >= slot_key((#[trigger] sorted@[k]).prefix@) by {
                assert(keys@[j] >= keys@[k]);
            }
        }
        sorted
    }
}

/// Two runs that hold the same pairs, each as often as the other, hold the
/// same pairs.
pub proof fn lemma_same_pairs(a: Seq<FilePair>, b: Seq<FilePair>)
    requires
        a.to_multiset() == b.to_multiset(),
    ensures
        a.len() == b.len(),
        forall|k: int| 0 <= k < b.len() ==> a.contains(#[trigger] b[k]),
        forall|k: int| 0 <= k < a.len() ==> b.contains(#[trigger] a[k]),
{
    a.to_multiset_ensures();
    b.to_multiset_ensures();
    assert forall|k: int| 0 <= k < b.len() implies a.contains(#[trigger] b[k]) by {
        assert(b.contains(b[k]));
        assert(b.to_multiset().count(b[k]) > 0);
    }
    assert forall|k: int| 0 <= k < a.len() implies b.contains(#[trigger] a[k]) by {
        assert(a.contains(a[k]));
        assert(a.to_multiset().count(a[k]) > 0);
    }
}

/// Putting units in another order keeps their prefixes distinct.
pub proof fn lemma_distinct_kept(a: Seq<FilePair>, b: Seq<FilePair>)
    requires
        a.to_multiset() == b.to_multiset(),
        distinct_prefixes(a),
    ensures
        distinct_prefixes(b),
{
    lemma_same_pairs(a, b);
    assert(a.no_duplicates()) by {
        assert forall|i: int, j: int| 0 <= i < a.len() && 0 <= j < a.len() && i != j implies a[i]
            != a[j] by {
            if i < j {
                assert(a[i].prefix@ != a[j].prefix@);
            } else {
                assert(a[j].prefix@ != a[i].prefix@);
            }
        }
    }
    a.lemma_multiset_has_no_duplicates();
    b.lemma_multiset_has_no_duplicates_conv();
    assert forall|j: int, k: int| 0 <= j < k < b.len() implies (#[trigger] b[j]).prefix@ != (
    #[trigger] b[k]).prefix@ by {
        assert(b[j] != b[k]);
        assert(a.contains(b[j]));
        assert(a.contains(b[k]));
        let x = choose|x: int| 0 <= x < a.len() && a[x] == b[j];
        let y = choose|y: int| 0 <= y < a.len() && a[y] == b[k];
        if x < y {
            assert(a[x].prefix@ != a[y].prefix@);
        } else if y < x {
            assert(a[y].prefix@ != a[x].prefix@);
        }
    }
}

/// Where no two units start at the same slot, a scan runs strictly from the
/// highest start slot down.
pub proof fn lemma_strictly_newest_first(pairs: Seq<FilePair>)
    requires
        newest_first(pairs),
        forall|j: int, k: int|
            0 <= j < k < pairs.len() ==> slot_key((#[trigger] pairs[j]).prefix@) != slot_key(
                (#[trigger] pairs[k]).prefix@,
            ),
    ensures
        strictly_newest_first(pairs),
{
}

/// A prefix whose start is no number names no unit, whatever the listing
/// holds, and is ordered as slot 0.
pub proof fn lemma_invalid_prefix(listing: Seq<DirEntry>, prefix: Seq<char>)
    requires
        start_slot(prefix) is None,
    ensures
        !is_unit(listing, prefix),
        slot_key(prefix) == 0,
{
}

} // verus!
