//! The settings of a reconciliation, from a file or from flags.

use vstd::prelude::*;
use vstd::string::StringExecFns;
use crate::common::text::{same_text, slice_text, to_chars};

verus! {

/// The days that a reconciliation looks back where nothing else is configured.
pub fn default_check_days() -> (days: u32)
    ensures
        days == 7,
{
    7
}

/// The hours that a reconciliation leaves to fresh rows where nothing else is
/// configured.
pub fn default_lag_hours() -> (hours: u32)
    ensures
        hours == 2,
{
    2
}

/// A pair of table names: the table of the local store and the table of the
/// remote store that has to hold the same rows.
#[derive(Debug, Clone, PartialEq, Eq)]
pub struct TableMapping {
    pub local_table: String,
    pub remote_table: String,
}

/// The settings of a reconciliation.
#[derive(Debug, Clone, PartialEq, Eq)]
pub struct SyncConfig {
    pub local_url: String,
    pub local_database: String,
    pub local_user: String,
    pub local_password: String,
    pub remote_url: String,
    pub remote_database: String,
    pub remote_user: String,
    pub remote_password: String,
    /// The tables to reconcile; no local table stands twice.
    pub table_mappings: Vec<TableMapping>,
    pub check_days: u32,
    pub lag_hours: u32,
}

/// The settings of a reconciliation as flags give them: each is there or not.
#[derive(Debug, Clone, PartialEq, Eq)]
pub struct SyncFlags {
    pub local_url: Option<String>,
    pub local_database: Option<String>,
    pub local_user: Option<String>,
    pub local_password: Option<String>,
    pub remote_url: Option<String>,
    pub remote_database: Option<String>,
    pub remote_user: Option<String>,
    pub remote_password: Option<String>,
    pub check_days: Option<u32>,
    pub lag_hours: Option<u32>,
    /// The pairs of tables, each as `local:remote`.
    pub table_mappings: Vec<String>,
}

/// Why flags give no settings.
#[derive(Debug, Clone, PartialEq, Eq)]
pub enum FlagError {
    MissingLocalUrl,
    MissingRemoteUrl,
    /// A pair of tables without `:`.
    InvalidMap(String),
}

/// The message of an error.
pub open spec fn flag_error_text(error: FlagError) -> Seq<char> {
    match error {
        FlagError::MissingLocalUrl => "--local-url is required when --config is not provided"@,
        FlagError::MissingRemoteUrl => "--remote-url is required when --config is not provided"@,
        FlagError::InvalidMap(entry) => "Invalid --map entry: "@ + entry@ + ". Use local:remote"@,
    }
}

impl FlagError {
    /// The message of the error.
    pub fn message(&self) -> (text: String)
        ensures
            text@ == flag_error_text(*self),
    {
        match self {
            FlagError::MissingLocalUrl => String::from_str(
                "--local-url is required when --config is not provided",
            ),
            FlagError::MissingRemoteUrl => String::from_str(
                "--remote-url is required when --config is not provided",
            ),
            FlagError::InvalidMap(entry) => String::from_str("Invalid --map entry: ").concat(
                entry.as_str(),
            ).concat(". Use local:remote"),
        }
    }
}

/// Where the first `:` of `entry` stands at or after `from`, or the length of
/// `entry` where there is none.
pub open spec fn colon_from(entry: Seq<char>, from: int) -> int
    decreases entry.len() - from,
{
    if from >= entry.len() {
        entry.len() as int
    } else if entry[from] == ':' {
        from
    } else {
        colon_from(entry, from + 1)
    }
}

/// The pair of tables that `local:remote` names: what stands before the first
/// `:` and what stands after it; nothing where there is no `:`.
pub open spec fn pair_named(entry: Seq<char>) -> Option<(Seq<char>, Seq<char>)> {
    let at = colon_from(entry, 0);
    if at >= entry.len() {
        None
    } else {
        Some((entry.subrange(0, at), entry.subrange(at + 1, entry.len() as int)))
    }
}

/// The pair of tables that `local:remote` names.
pub fn parse_mapping(entry: &str) -> (mapping: Option<TableMapping>)
    ensures
        match mapping {
            Some(m) => pair_named(entry@) == Some((m.local_table@, m.remote_table@)),
            None => pair_named(entry@) is None,
        },
{
    let chars = to_chars(entry);
    let mut at: usize = 0;
    while at < chars.len() && chars[at] != ':'
        invariant
            at <= chars@.len(),
            chars@ == entry@,
            colon_from(chars@, 0) == colon_from(chars@, at as int),
        decreases chars@.len() - at,
    {
        at = at + 1;
    }
    if at >= chars.len() {
        None
    } else {
        Some(
            TableMapping {
                local_table: slice_text(entry, 0, at),
                remote_table: slice_text(entry, at + 1, chars.len()),
            },
        )
    }
}

/// The pairs of tables with `local` paired to `remote`: in the place of the
/// pair that `local` had, or at the end where it had none.
pub open spec fn with_pair(
    pairs: Seq<(Seq<char>, Seq<char>)>,
    local: Seq<char>,
    remote: Seq<char>,
) -> Seq<(Seq<char>, Seq<char>)>
    decreases pairs.len(),
{
    if pairs.len() == 0 {
        seq![(local, remote)]
    } else if pairs[0].0 == local {
        seq![(local, remote)] + pairs.drop_first()
    } else {
        seq![pairs[0]] + with_pair(pairs.drop_first(), local, remote)
    }
}

/// The pairs of tables that the first `n` entries name, a later entry for a
/// local table taking the place of an earlier one; nothing where one of the
/// entries names no pair.
pub open spec fn pairs_before(entries: Seq<Seq<char>>, n: int) -> Option<
    Seq<(Seq<char>, Seq<char>)>,
>
    decreases n,
{
    if n <= 0 {
        Some(Seq::empty())
    } else {
        match (pairs_before(entries, n - 1), pair_named(entries[n - 1])) {
            (Some(pairs), Some(pair)) => Some(with_pair(pairs, pair.0, pair.1)),
            _ => None,
        }
    }
}

/// The first entry that names no pair, if there is one.
pub open spec fn first_bad_entry(entries: Seq<Seq<char>>, n: int) -> Option<Seq<char>>
    decreases n,
{
    if n <= 0 {
        None
    } else {
        match first_bad_entry(entries, n - 1) {
            Some(entry) => Some(entry),
            None => if pair_named(entries[n - 1]) is None {
                Some(entries[n - 1])
            } else {
                None
            },
        }
    }
}

/// The names of the tables of a run of pairs.
pub open spec fn names_of(mappings: Seq<TableMapping>) -> Seq<(Seq<char>, Seq<char>)> {
    mappings.map_values(|m: TableMapping| (m.local_table@, m.remote_table@))
}

fn put_mapping(mappings: &mut Vec<TableMapping>, mapping: TableMapping)
    ensures
        names_of(final(mappings)@) == with_pair(
            names_of(old(mappings)@),
            mapping.local_table@,
            mapping.remote_table@,
        ),
{
    let ghost before = names_of(mappings@);
    let ghost local = mapping.local_table@;
    let ghost remote = mapping.remote_table@;
    let mut i: usize = 0;
    proof {
        assert(before.skip(0) =~= before);
        assert(before.take(0) + with_pair(before.skip(0), local, remote) =~= with_pair(
            before,
            local,
            remote,
        ));
    }
    while i < mappings.len()
        invariant
            i <= mappings@.len(),
            before == names_of(mappings@),
            before == names_of(old(mappings)@),
            local == mapping.local_table@,
            remote == mapping.remote_table@,
            with_pair(before, local, remote) == before.take(i as int) + with_pair(
                before.skip(i as int),
                local,
                remote,
            ),
        decreases mappings@.len() - i,
    {
        let ghost rest = before.skip(i as int);
        proof {
            assert(rest[0] == before[i as int]);
            assert(before[i as int].0 == mappings@[i as int].local_table@);
            assert(rest.drop_first() =~= before.skip(i + 1));
        }
        if same_text(mappings[i].local_table.as_str(), mapping.local_table.as_str()) {
            mappings.set(i, mapping);
            proof {
                assert(with_pair(rest, local, remote) == seq![(local, remote)] + rest.drop_first());
                assert(names_of(mappings@) =~= before.take(i as int) + (seq![(local, remote)]
                    + rest.drop_first()));
            }
            return ;
        }
        proof {
            assert(before.take(i + 1) =~= before.take(i as int) + seq![rest[0]]);
            assert(before.take(i as int) + (seq![rest[0]] + with_pair(
                rest.drop_first(),
                local,
                remote,
            )) =~= before.take(i + 1) + with_pair(before.skip(i + 1), local, remote));
        }
        i = i + 1;
    }
    mappings.push(mapping);
    proof {
        assert(before.skip(before.len() as int) =~= Seq::empty());
        assert(before.take(before.len() as int) =~= before);
        assert(names_of(mappings@) =~= before + seq![(local, remote)]);
    }
}

/// The text that a flag gives, or `fallback` where the flag is not there.
fn text_or(flag: Option<String>, fallback: &str) -> (text: String)
    ensures
        text@ == (match flag {
            Some(given) => given@,
            None => fallback@,
        }),
{
    match flag {
        Some(given) => given,
        None => String::from_str(fallback),
    }
}

/// What the settings that flags give have to be.
pub open spec fn is_from_flags(config: SyncConfig, flags: SyncFlags) -> bool {
    &&& flags.local_url is Some && config.local_url@ == flags.local_url->0@
    &&& flags.remote_url is Some && config.remote_url@ == flags.remote_url->0@
    &&& config.local_database@ == (match flags.local_database {
        Some(given) => given@,
        None => "default"@,
    })
    &&& config.local_user@ == (match flags.local_user {
        Some(given) => given@,
        None => "default"@,
    })
    &&& config.local_password@ == (match flags.local_password {
        Some(given) => given@,
        None => ""@,
    })
    &&& config.remote_database@ == (match flags.remote_database {
        Some(given) => given@,
        None => "default"@,
    })
    &&& config.remote_user@ == (match flags.remote_user {
        Some(given) => given@,
        None => "default"@,
    })
    &&& config.remote_password@ == (match flags.remote_password {
        Some(given) => given@,
        None => ""@,
    })
    &&& config.check_days == (match flags.check_days {
        Some(days) => days,
        None => 7,
    })
    &&& config.lag_hours == (match flags.lag_hours {
        Some(hours) => hours,
        None => 2,
    })
    &&& Some(names_of(config.table_mappings@)) == pairs_before(
        flags.table_mappings@.map_values(|s: String| s@),
        flags.table_mappings@.len() as int,
    )
}

/// What is wrong with flags that give no settings.
pub enum FlagFault {
    MissingLocalUrl,
    MissingRemoteUrl,
    /// The entry that names no pair of tables.
    InvalidMap(Seq<char>),
}

impl View for FlagError {
    type V = FlagFault;

    open spec fn view(&self) -> FlagFault {
        match *self {
            FlagError::MissingLocalUrl => FlagFault::MissingLocalUrl,
            FlagError::MissingRemoteUrl => FlagFault::MissingRemoteUrl,
            FlagError::InvalidMap(entry) => FlagFault::InvalidMap(entry@),
        }
    }
}

/// What is wrong with the flags, if anything is: the address of the local
/// store is asked for first, then that of the remote store, then the pairs of
/// tables in their order.
pub open spec fn flags_fault(flags: SyncFlags) -> Option<FlagFault> {
    if flags.local_url is None {
        Some(FlagFault::MissingLocalUrl)
    } else if flags.remote_url is None {
        Some(FlagFault::MissingRemoteUrl)
    } else {
        match first_bad_entry(
            flags.table_mappings@.map_values(|s: String| s@),
            flags.table_mappings@.len() as int,
        ) {
            Some(entry) => Some(FlagFault::InvalidMap(entry)),
            None => None,
        }
    }
}

/// Entries name pairs of tables exactly if none of them is without `:`.
pub proof fn lemma_pairs_unless_bad_entry(entries: Seq<Seq<char>>, n: int)
    requires
        0 <= n <= entries.len(),
    ensures
        first_bad_entry(entries, n) is None <==> pairs_before(entries, n) is Some,
    decreases n,
{
    if n > 0 {
        lemma_pairs_unless_bad_entry(entries, n - 1);
    }
}

impl SyncConfig {
    /// The settings that flags give: the addresses of the two stores have to
    /// be there; a database and a user are `default`, a password is empty, the
    /// days to look back are 7 and the hours of lag 2 where the flags do not
    /// say otherwise; and each pair of tables has to be `local:remote`.
    pub fn from_flags(flags: SyncFlags) -> (config: Result<SyncConfig, FlagError>)
        ensures
            match config {
                Ok(config) => flags_fault(flags) is None && is_from_flags(config, flags),
                Err(error) => flags_fault(flags) == Some(error@),
            },
    {
        let ghost entries = flags.table_mappings@.map_values(|s: String| s@);
        let ghost given = flags;
        let local_url = match flags.local_url {
            Some(url) => url,
            None => {
                return Err(FlagError::MissingLocalUrl);
            },
        };
        let remote_url = match flags.remote_url {
            Some(url) => url,
            None => {
                return Err(FlagError::MissingRemoteUrl);
            },
        };
        let mut table_mappings: Vec<TableMapping> = Vec::new();
        let mut i: usize = 0;
        assert(names_of(table_mappings@) =~= Seq::empty());
        while i < flags.table_mappings.len()
            invariant
                i <= flags.table_mappings@.len(),
                entries == flags.table_mappings@.map_values(|s: String| s@),
                given == flags,
                given.local_url is Some,
                given.remote_url is Some,
                first_bad_entry(entries, i as int) is None,
                pairs_before(entries, i as int) == Some(names_of(table_mappings@)),
            decreases flags.table_mappings@.len() - i,
        {
            assert(entries[i as int] == flags.table_mappings@[i as int]@);
            match parse_mapping(flags.table_mappings[i].as_str()) {
                Some(mapping) => {
                    put_mapping(&mut table_mappings, mapping);
                },
                None => {
                    let entry = flags.table_mappings[i].clone();
                    proof {
                        assert(first_bad_entry(entries, i + 1) == Some(entries[i as int]));
                        lemma_first_bad_stays(entries, i + 1, entries.len() as int);
                        assert(flags_fault(given) == Some(FlagError::InvalidMap(entry)@));
                    }
                    return Err(FlagError::InvalidMap(entry));
                },
            }
            i = i + 1;
        }
        Ok(
            SyncConfig {
                local_url,
                local_database: text_or(flags.local_database, "default"),
                local_user: text_or(flags.local_user, "default"),
                local_password: text_or(flags.local_password, ""),
                remote_url,
                remote_database: text_or(flags.remote_database, "default"),
                remote_user: text_or(flags.remote_user, "default"),
                remote_password: text_or(flags.remote_password, ""),
                table_mappings,
                check_days: match flags.check_days {
                    Some(days) => days,
                    None => default_check_days(),
                },
                lag_hours: match flags.lag_hours {
                    Some(hours) => hours,
                    None => default_lag_hours(),
                },
            },
        )
    }
}

proof fn lemma_first_bad_stays(entries: Seq<Seq<char>>, n: int, m: int)
    requires
        0 <= n <= m <= entries.len(),
        first_bad_entry(entries, n) is Some,
    ensures
        first_bad_entry(entries, m) == first_bad_entry(entries, n),
    decreases m - n,
{
    if n < m {
        lemma_first_bad_stays(entries, n, m - 1);
    }
}

} // verus!
