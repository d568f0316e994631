//! The index of an archive unit: where each slot's block lies in the `.bin`
//! file.

use vstd::prelude::*;

verus! {

/// One entry of a unit's index.
#[derive(Debug, Clone, Copy, PartialEq, Eq)]
pub struct SlotMeta {
    pub slot: u64,
    /// Where the compressed block begins in the `.bin` file; none where the
    /// slot has no block.
    pub offset: Option<u64>,
    /// The number of bytes of the compressed block.
    pub size: u64,
}

/// A range of bytes to read from a `.bin` file.
#[derive(Debug, Clone, Copy, PartialEq, Eq)]
pub struct SlotRange {
    pub slot: u64,
    pub offset: u64,
    pub size: u64,
}

/// The range to read for an entry: none where the entry has no offset.
pub open spec fn range_of(entry: SlotMeta) -> Option<SlotRange> {
    match entry.offset {
        Some(offset) => Some(SlotRange { slot: entry.slot, offset, size: entry.size }),
        None => None,
    }
}

/// The ranges to read for the first `n` entries of an index, in their order:
/// entries without offset are passed over.
pub open spec fn ranges_before(index: Seq<SlotMeta>, n: int) -> Seq<SlotRange>
    decreases n,
{
    if n <= 0 {
        Seq::empty()
    } else {
        match range_of(index[n - 1]) {
            Some(range) => ranges_before(index, n - 1).push(range),
            None => ranges_before(index, n - 1),
        }
    }
}

/// The ranges to read for an index.
pub open spec fn ranges_of(index: Seq<SlotMeta>) -> Seq<SlotRange> {
    ranges_before(index, index.len() as int)
}

impl SlotMeta {
    /// The range to read for this entry.
    pub fn range(&self) -> (range: Option<SlotRange>)
        ensures
            range == range_of(*self),
    {
        match self.offset {
            Some(offset) => Some(SlotRange { slot: self.slot, offset, size: self.size }),
            None => None,
        }
    }
}

/// The ranges to read for an index, in the order of its entries.
pub fn read_plan(index: &Vec<SlotMeta>) -> (plan: Vec<SlotRange>)
    ensures
        plan@ == ranges_of(index@),
{
    let mut plan: Vec<SlotRange> = Vec::new();
    let mut i: usize = 0;
    while i < index.len()
        invariant
            i <= index@.len(),
            plan@ == ranges_before(index@, i as int),
        decreases index@.len() - i,
    {
        match index[i].range() {
            Some(range) => {
                plan.push(range);
            },
            None => {},
        }
        i = i + 1;
    }
    plan
}

/// An entry without offset is passed over, and nothing else changes: the plan
/// for an index with such an entry at its end is the plan for the index
/// without it.
pub proof fn lemma_entry_without_offset(index: Seq<SlotMeta>, entry: SlotMeta)
    requires
        entry.offset is None,
    ensures
        ranges_of(index.push(entry)) == ranges_of(index),
{
    lemma_ranges_before_prefix(index, index.push(entry), index.len() as int);
}

/// An index without offsets has nothing to read.
pub proof fn lemma_no_offsets_nothing_to_read(index: Seq<SlotMeta>)
    requires
        forall|i: int| 0 <= i < index.len() ==> (#[trigger] index[i]).offset is None,
    ensures
        ranges_of(index) == Seq::<SlotRange>::empty(),
{
    lemma_no_offsets_before(index, index.len() as int);
}

proof fn lemma_no_offsets_before(index: Seq<SlotMeta>, n: int)
    requires
        0 <= n <= index.len(),
        forall|i: int| 0 <= i < index.len() ==> (#[trigger] index[i]).offset is None,
    ensures
        ranges_before(index, n) == Seq::<SlotRange>::empty(),
    decreases n,
{
    if n > 0 {
        lemma_no_offsets_before(index, n - 1);
    }
}

proof fn lemma_ranges_before_prefix(a: Seq<SlotMeta>, b: Seq<SlotMeta>, n: int)
    requires
        0 <= n <= a.len() <= b.len(),
        forall|i: int| 0 <= i < n ==> a[i] == b[i],
    ensures
        ranges_before(a, n) == ranges_before(b, n),
    decreases n,
{
    if n > 0 {
        lemma_ranges_before_prefix(a, b, n - 1);
    }
}

} // verus!
