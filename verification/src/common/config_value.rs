//! Values of a configuration file, as the services read them.

use vstd::prelude::*;
use crate::common::text::same_text;

verus! {

/// A value of a configuration file.
#[derive(Debug)]
pub enum ConfigValue {
    String(String),
    Integer(i64),
    Boolean(bool),
    /// A table: its keys with their values, in the order of the file.
    Table(Vec<(String, ConfigValue)>),
    /// A value of a kind that no service reads: a float, a date, an array.
    Other,
}

/// The value of the first entry with the given key among the first `n`
/// entries.
pub open spec fn entry_before(
    entries: Seq<(String, ConfigValue)>,
    key: Seq<char>,
    n: int,
) -> Option<ConfigValue>
    decreases n,
{
    if n <= 0 {
        None
    } else {
        match entry_before(entries, key, n - 1) {
            Some(value) => Some(value),
            None => if entries[n - 1].0@ == key {
                Some(entries[n - 1].1)
            } else {
                None
            },
        }
    }
}

impl ConfigValue {
    /// The value under `key`, where this is a table that has the key.
    pub open spec fn lookup(self, key: Seq<char>) -> Option<ConfigValue> {
        match self {
            ConfigValue::Table(entries) => entry_before(entries@, key, entries@.len() as int),
            _ => None,
        }
    }

    /// The text, where this is a string.
    pub open spec fn text(self) -> Option<Seq<char>> {
        match self {
            ConfigValue::String(s) => Some(s@),
            _ => None,
        }
    }

    /// The number, where this is an integer.
    pub open spec fn integer(self) -> Option<i64> {
        match self {
            ConfigValue::Integer(n) => Some(n),
            _ => None,
        }
    }

    /// The truth value, where this is a boolean.
    pub open spec fn boolean(self) -> Option<bool> {
        match self {
            ConfigValue::Boolean(b) => Some(b),
            _ => None,
        }
    }

    /// The text under `key`, where this is a table that holds a string there.
    pub open spec fn text_at(self, key: Seq<char>) -> Option<Seq<char>> {
        match self.lookup(key) {
            Some(value) => value.text(),
            None => None,
        }
    }

    /// The number under `key`, where this is a table that holds an integer
    /// there.
    pub open spec fn integer_at(self, key: Seq<char>) -> Option<i64> {
        match self.lookup(key) {
            Some(value) => value.integer(),
            None => None,
        }
    }

    /// The truth value under `key`, where this is a table that holds a boolean
    /// there.
    pub open spec fn boolean_at(self, key: Seq<char>) -> Option<bool> {
        match self.lookup(key) {
            Some(value) => value.boolean(),
            None => None,
        }
    }

    /// The value under `key`, where this is a table that has the key.
    pub fn get(&self, key: &str) -> (value: Option<&ConfigValue>)
        ensures
            match value {
                Some(found) => self.lookup(key@) == Some(*found),
                None => self.lookup(key@) is None,
            },
    {
        match self {
            ConfigValue::Table(entries) => {
                let mut i: usize = 0;
                while i < entries.len()
                    invariant
                        i <= entries@.len(),
                        self.lookup(key@) == entry_before(entries@, key@, entries@.len() as int),
                        entry_before(entries@, key@, i as int) is None,
                    decreases entries@.len() - i,
                {
                    if same_text(entries[i].0.as_str(), key) {
                        let found = &entries[i].1;
                        proof {
                            lemma_entry_found(entries@, key@, i as int, entries@.len() as int);
                            assert(self.lookup(key@) == Some(entries@[i as int].1));
                        }
                        return Some(found);
                    }
                    i = i + 1;
                }
                None
            },
            _ => None,
        }
    }

    /// The text of this value, where it is a string.
    pub fn as_str(&self) -> (text: Option<&str>)
        ensures
            match text {
                Some(found) => self.text() == Some(found@),
                None => self.text() is None,
            },
    {
        match self {
            ConfigValue::String(s) => Some(s.as_str()),
            _ => None,
        }
    }

    /// The number of this value, where it is an integer.
    pub fn as_integer(&self) -> (number: Option<i64>)
        ensures
            number == self.integer(),
    {
        match self {
            ConfigValue::Integer(n) => Some(*n),
            _ => None,
        }
    }

    /// The truth value of this value, where it is a boolean.
    pub fn as_bool(&self) -> (flag: Option<bool>)
        ensures
            flag == self.boolean(),
    {
        match self {
            ConfigValue::Boolean(b) => Some(*b),
            _ => None,
        }
    }

    /// The text under `key`, as an owned string.
    pub fn string_at(&self, key: &str) -> (text: Option<String>)
        ensures
            match text {
                Some(found) => self.text_at(key@) == Some(found@),
                None => self.text_at(key@) is None,
            },
    {
        match self.get(key) {
            Some(value) => match value.as_str() {
                Some(text) => Some(text.to_string()),
                None => None,
            },
            None => None,
        }
    }

    /// The text under `key`, or `fallback` where there is none.
    pub fn string_or(&self, key: &str, fallback: &str) -> (text: String)
        ensures
            text@ == (match self.text_at(key@) {
                Some(found) => found,
                None => fallback@,
            }),
    {
        match self.string_at(key) {
            Some(text) => text,
            None => fallback.to_string(),
        }
    }

    /// The number under `key`, or `fallback` where there is none.
    pub fn integer_or(&self, key: &str, fallback: i64) -> (number: i64)
        ensures
            number == (match self.integer_at(key@) {
                Some(found) => found,
                None => fallback,
            }),
    {
        match self.get(key) {
            Some(value) => match value.as_integer() {
                Some(number) => number,
                None => fallback,
            },
            None => fallback,
        }
    }

    /// The truth value under `key`, or `fallback` where there is none.
    pub fn bool_or(&self, key: &str, fallback: bool) -> (flag: bool)
        ensures
            flag == (match self.boolean_at(key@) {
                Some(found) => found,
                None => fallback,
            }),
    {
        match self.get(key) {
            Some(value) => match value.as_bool() {
                Some(flag) => flag,
                None => fallback,
            },
            None => fallback,
        }
    }
}

proof fn lemma_entry_found(entries: Seq<(String, ConfigValue)>, key: Seq<char>, i: int, n: int)
    requires
        0 <= i < n <= entries.len(),
        entry_before(entries, key, i) is None,
        entries[i].0@ == key,
    ensures
        entry_before(entries, key, n) == Some(entries[i].1),
    decreases n - i,
{
    if n > i + 1 {
        lemma_entry_found(entries, key, i, n - 1);
    }
}

} // verus!
