//! The history store: an append-only, ordered sequence of entries.
//!
//! The store itself is a plain value. Exclusive access for `append` and
//! shared access for `snapshot` are what `&mut self` and `&self` demand, so
//! whoever shares a `History` between tasks puts it behind a reader/writer
//! lock and gets the exclusion from there.

use crate::reading::HistoryEntry;
use vstd::prelude::*;

verus! {

/// Every entry collected so far, oldest first.
pub struct History {
    entries: Vec<HistoryEntry>,
}

impl View for History {
    type V = Seq<HistoryEntry>;

    closed spec fn view(&self) -> Seq<HistoryEntry> {
        self.entries@
    }
}

/// Timestamps never decrease from one entry to the next.
pub open spec fn chronological(entries: Seq<HistoryEntry>) -> bool {
    forall|i: int, j: int| 0 <= i <= j < entries.len() ==> entries[i].timestamp <= entries[j].timestamp
}

/// No entry of `entries` was captured after `moment`.
pub open spec fn none_after(entries: Seq<HistoryEntry>, moment: u128) -> bool {
    forall|i: int| 0 <= i < entries.len() ==> entries[i].timestamp <= moment
}

impl History {
    /// The empty history.
    pub fn new() -> (history: History)
        ensures
            history@ == Seq::<HistoryEntry>::empty(),
    {
        History { entries: Vec::new() }
    }

    /// Puts `entry` at the end. Entries already present keep their place.
    pub fn append(&mut self, entry: HistoryEntry)
        ensures
            final(self)@ == old(self)@.push(entry),
    {
        self.entries.push(entry);
    }

    /// A copy of the whole sequence as it stands now: every entry once, in
    /// insertion order.
    pub fn snapshot(&self) -> (copy: Vec<HistoryEntry>)
        ensures
            copy@ == self@,
    {
        let mut copy: Vec<HistoryEntry> = Vec::new();
        let mut i: usize = 0;
        while i < self.entries.len()
            invariant
                i <= self.entries.len(),
                copy@ == self.entries@.take(i as int),
            decreases self.entries.len() - i,
        {
            copy.push(self.entries[i]);
            i += 1;
        }
        copy
    }

    /// The number of entries.
    pub fn len(&self) -> (n: usize)
        ensures
            n == self@.len(),
    {
        self.entries.len()
    }

    /// Whether nothing has been collected yet.
    pub fn is_empty(&self) -> (empty: bool)
        ensures
            empty == (self@.len() == 0),
    {
        self.entries.len() == 0
    }
}

/// What a history that holds `history` comes to hold when `entries` are
/// appended to it one by one.
pub open spec fn extended(history: Seq<HistoryEntry>, entries: Seq<HistoryEntry>) -> Seq<HistoryEntry>
    decreases entries.len(),
{
    if entries.len() == 0 {
        history
    } else {
        extended(history, entries.drop_last()).push(entries.last())
    }
}

/// Appending never removes, moves or repeats anything. A snapshot of the
/// history is a prefix of everything the history holds later: after any
/// number of appends each entry of the snapshot is still at its place, and
/// behind the snapshot's entries stand the appended ones, each once and in
/// the order in which they were appended.
pub proof fn lemma_snapshot_is_prefix(snapshot: Seq<HistoryEntry>, entries: Seq<HistoryEntry>)
    ensures
        extended(snapshot, entries) == snapshot + entries,
        snapshot.is_prefix_of(extended(snapshot, entries)),
        extended(snapshot, entries).len() == snapshot.len() + entries.len(),
        forall|i: int| 0 <= i < snapshot.len() ==> extended(snapshot, entries)[i] == snapshot[i],
        forall|i: int|
            0 <= i < entries.len() ==> extended(snapshot, entries)[snapshot.len() + i] == entries[i],
    decreases entries.len(),
{
    if entries.len() > 0 {
        lemma_snapshot_is_prefix(snapshot, entries.drop_last());
        assert(snapshot + entries == (snapshot + entries.drop_last()).push(entries.last()));
    }
}

/// Appending an entry that is not older than any entry present keeps the
/// history chronological.
pub proof fn lemma_append_keeps_chronological(entries: Seq<HistoryEntry>, entry: HistoryEntry)
    requires
        chronological(entries),
        none_after(entries, entry.timestamp),
    ensures
        chronological(entries.push(entry)),
        none_after(entries.push(entry), entry.timestamp),
{
}

} // verus!
