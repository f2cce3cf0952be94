//! An index held in memory, for programs and tests that need no storage
//! engine behind the watcher.

use vstd::prelude::*;
use crate::index::{apply_op, apply_ops, ops_view, IndexEntry, IndexOp, IndexState};

verus! {

/// No two entries are stored under one path.
spec fn distinct_paths(entries: Seq<IndexEntry>) -> bool {
    forall|i: int, j: int|
        0 <= i < j < entries.len() ==> entries[i].abs_path@ != entries[j].abs_path@
}

/// Whether an entry is stored under `abs_path`.
spec fn holds(entries: Seq<IndexEntry>, abs_path: Seq<char>) -> bool {
    exists|i: int| 0 <= i < entries.len() && #[trigger] entries[i].abs_path@ == abs_path
}

/// Where the entry under `abs_path` is stored.
spec fn slot(entries: Seq<IndexEntry>, abs_path: Seq<char>) -> int {
    choose|i: int| 0 <= i < entries.len() && #[trigger] entries[i].abs_path@ == abs_path
}

/// The entries as a map from path to name.
spec fn as_map(entries: Seq<IndexEntry>) -> IndexState {
    Map::new(
        |abs_path: Seq<char>| holds(entries, abs_path),
        |abs_path: Seq<char>| entries[slot(entries, abs_path)].name@,
    )
}

/// With distinct paths, the entry at position `i` is the one that the map
/// gives for its path.
proof fn lemma_slot(entries: Seq<IndexEntry>, i: int)
    requires
        distinct_paths(entries),
        0 <= i < entries.len(),
    ensures
        holds(entries, entries[i].abs_path@),
        slot(entries, entries[i].abs_path@) == i,
        as_map(entries)[entries[i].abs_path@] == entries[i].name@,
{
    let p = entries[i].abs_path@;
    let j = slot(entries, p);
    assert(0 <= j < entries.len() && entries[j].abs_path@ == p);
    if j < i {
        assert(entries[j].abs_path@ != entries[i].abs_path@);
    } else if i < j {
        assert(entries[i].abs_path@ != entries[j].abs_path@);
    }
}

/// Storing an entry under a path that holds none adds it to the map.
proof fn lemma_push(entries: Seq<IndexEntry>, entry: IndexEntry)
    requires
        distinct_paths(entries),
        !holds(entries, entry.abs_path@),
    ensures
        distinct_paths(entries.push(entry)),
        as_map(entries.push(entry)) == as_map(entries).insert(entry.abs_path@, entry.name@),
{
    let after = entries.push(entry);
    let last = entries.len() as int;
    assert forall|i: int, j: int| 0 <= i < j < after.len() implies after[i].abs_path@
        != after[j].abs_path@ by {
        if j == last {
            assert(entries[i].abs_path@ != entry.abs_path@);
        }
    }
    let want = as_map(entries).insert(entry.abs_path@, entry.name@);
    assert forall|q: Seq<char>| as_map(after).dom().contains(q) implies want.dom().contains(q)
        && want[q] == as_map(after)[q] by {
        let j = slot(after, q);
        lemma_slot(after, j);
        if j < last {
            assert(entries[j].abs_path@ == q);
            lemma_slot(entries, j);
        }
    }
    assert forall|q: Seq<char>| want.dom().contains(q) implies as_map(after).dom().contains(q) by {
        if q == entry.abs_path@ {
            assert(after[last].abs_path@ == q);
        } else {
            let j = slot(entries, q);
            assert(after[j].abs_path@ == q);
        }
    }
    assert(as_map(after) =~= want);
}

/// Storing an entry in the place of the one under its path replaces the
/// name in the map.
proof fn lemma_replace(entries: Seq<IndexEntry>, i: int, entry: IndexEntry)
    requires
        distinct_paths(entries),
        0 <= i < entries.len(),
        entries[i].abs_path@ == entry.abs_path@,
    ensures
        distinct_paths(entries.update(i, entry)),
        as_map(entries.update(i, entry)) == as_map(entries).insert(entry.abs_path@, entry.name@),
{
    let after = entries.update(i, entry);
    assert forall|a: int, b: int| 0 <= a < b < after.len() implies after[a].abs_path@
        != after[b].abs_path@ by {
        assert(entries[a].abs_path@ != entries[b].abs_path@);
    }
    let want = as_map(entries).insert(entry.abs_path@, entry.name@);
    assert forall|q: Seq<char>| as_map(after).dom().contains(q) implies want.dom().contains(q)
        && want[q] == as_map(after)[q] by {
        let j = slot(after, q);
        lemma_slot(after, j);
        if j != i {
            assert(entries[j].abs_path@ == q);
            lemma_slot(entries, j);
        }
    }
    assert forall|q: Seq<char>| want.dom().contains(q) implies as_map(after).dom().contains(q) by {
        if q == entry.abs_path@ {
            assert(after[i].abs_path@ == q);
        } else {
            let j = slot(entries, q);
            assert(after[j].abs_path@ == q);
        }
    }
    assert(as_map(after) =~= want);
}

/// Taking an entry out drops its path from the map.
proof fn lemma_take_out(entries: Seq<IndexEntry>, i: int)
    requires
        distinct_paths(entries),
        0 <= i < entries.len(),
    ensures
        distinct_paths(entries.remove(i)),
        as_map(entries.remove(i)) == as_map(entries).remove(entries[i].abs_path@),
{
    let after = entries.remove(i);
    let gone = entries[i].abs_path@;
    assert forall|a: int, b: int| 0 <= a < b < after.len() implies after[a].abs_path@
        != after[b].abs_path@ by {
        let a0 = if a < i { a } else { a + 1 };
        let b0 = if b < i { b } else { b + 1 };
        assert(entries[a0].abs_path@ != entries[b0].abs_path@);
    }
    let want = as_map(entries).remove(gone);
    assert forall|q: Seq<char>| as_map(after).dom().contains(q) implies want.dom().contains(q)
        && want[q] == as_map(after)[q] by {
        let j = slot(after, q);
        lemma_slot(after, j);
        let j0 = if j < i { j } else { j + 1 };
        assert(entries[j0].abs_path@ == q);
        lemma_slot(entries, j0);
        lemma_slot(entries, i);
    }
    assert forall|q: Seq<char>| want.dom().contains(q) implies as_map(after).dom().contains(q) by {
        let j0 = slot(entries, q);
        let j = if j0 < i { j0 } else { j0 - 1 };
        assert(after[j].abs_path@ == q);
    }
    assert(as_map(after) =~= want);
}

/// Dropping a path that holds no entry leaves the map as it was.
proof fn lemma_absent(entries: Seq<IndexEntry>, abs_path: Seq<char>)
    requires
        !holds(entries, abs_path),
    ensures
        as_map(entries).remove(abs_path) == as_map(entries),
{
    assert(as_map(entries).remove(abs_path) =~= as_map(entries));
}

/// With distinct paths, the map has as many paths as there are entries.
proof fn lemma_count(entries: Seq<IndexEntry>)
    requires
        distinct_paths(entries),
    ensures
        as_map(entries).dom().finite(),
        as_map(entries).dom().len() == entries.len(),
{
    let paths = entries.map_values(|e: IndexEntry| e.abs_path@);
    assert forall|i: int, j: int|
        0 <= i < paths.len() && 0 <= j < paths.len() && i != j implies paths[i] != paths[j] by {
        if i < j {
            assert(entries[i].abs_path@ != entries[j].abs_path@);
        } else {
            assert(entries[j].abs_path@ != entries[i].abs_path@);
        }
    }
    paths.unique_seq_to_set();
    assert forall|q: Seq<char>| as_map(entries).dom().contains(q) implies paths.to_set().contains(
        q,
    ) by {
        let j = slot(entries, q);
        assert(paths[j] == q);
    }
    assert forall|q: Seq<char>| paths.to_set().contains(q) implies as_map(entries).dom().contains(
        q,
    ) by {
        let j = choose|j: int| 0 <= j < paths.len() && paths[j] == q;
        assert(entries[j].abs_path@ == q);
    }
    assert(as_map(entries).dom() =~= paths.to_set());
}

/// The position of the entry under `abs_path` in `entries`, if there is
/// one.
fn position(entries: &Vec<IndexEntry>, abs_path: &str) -> (found: Option<usize>)
    ensures
        found.is_some() == holds(entries@, abs_path@),
        found matches Some(i) ==> i < entries@.len() && entries@[i as int].abs_path@ == abs_path@,
{
    let key = abs_path.to_owned();
    let mut i: usize = 0;
    while i < entries.len()
        invariant
            i <= entries@.len(),
            key@ == abs_path@,
            forall|j: int| 0 <= j < i ==> entries@[j].abs_path@ != abs_path@,
        decreases entries@.len() - i,
    {
        if entries[i].abs_path == key {
            return Some(i);
        }
        i += 1;
    }
    None
}

/// An index in memory: at most one entry for each path, and a durable copy
/// that changes only on commit.
pub struct MemoryIndex {
    entries: Vec<IndexEntry>,
    durable: Vec<IndexEntry>,
}

impl View for MemoryIndex {
    type V = IndexState;

    /// The live entries: the name stored under each path.
    closed spec fn view(&self) -> IndexState {
        as_map(self.entries@)
    }
}

impl MemoryIndex {
    /// At most one entry is stored under each path, live and durable.
    pub closed spec fn wf(&self) -> bool {
        distinct_paths(self.entries@) && distinct_paths(self.durable@)
    }

    /// The entries as of the last commit.
    pub closed spec fn durable_view(&self) -> IndexState {
        as_map(self.durable@)
    }

    /// An empty index, with nothing committed.
    pub fn new() -> (index: MemoryIndex)
        ensures
            index.wf(),
            index@ == IndexState::empty(),
            index.durable_view() == IndexState::empty(),
    {
        let index = MemoryIndex { entries: Vec::new(), durable: Vec::new() };
        assert(as_map(index.entries@) =~= IndexState::empty());
        assert(as_map(index.durable@) =~= IndexState::empty());
        index
    }

    /// Whether an entry is stored under `abs_path`.
    pub fn contains(&self, abs_path: &str) -> (present: bool)
        ensures
            present == self@.dom().contains(abs_path@),
    {
        position(&self.entries, abs_path).is_some()
    }

    /// The name stored under `abs_path`, if there is an entry.
    pub fn name_of(&self, abs_path: &str) -> (name: Option<String>)
        requires
            self.wf(),
        ensures
            name.is_some() == self@.dom().contains(abs_path@),
            name matches Some(n) ==> n@ == self@[abs_path@],
    {
        match position(&self.entries, abs_path) {
            Some(i) => {
                proof {
                    lemma_slot(self.entries@, i as int);
                }
                Some(self.entries[i].name.clone())
            },
            None => None,
        }
    }

    /// How many entries the index holds.
    pub fn len(&self) -> (count: usize)
        requires
            self.wf(),
        ensures
            self@.dom().finite(),
            count == self@.dom().len(),
    {
        proof {
            lemma_count(self.entries@);
        }
        self.entries.len()
    }

    /// Whether the entries as of the last commit hold one under `abs_path`.
    pub fn is_durable(&self, abs_path: &str) -> (present: bool)
        ensures
            present == self.durable_view().dom().contains(abs_path@),
    {
        position(&self.durable, abs_path).is_some()
    }

    /// Stores `entry` under its path, in place of any entry already there.
    pub fn add(&mut self, entry: IndexEntry)
        requires
            old(self).wf(),
        ensures
            final(self).wf(),
            final(self)@ == old(self)@.insert(entry.abs_path@, entry.name@),
            final(self).durable_view() == old(self).durable_view(),
    {
        match position(&self.entries, entry.abs_path.as_str()) {
            Some(i) => {
                proof {
                    lemma_replace(self.entries@, i as int, entry);
                }
                self.entries.set(i, entry);
            },
            None => {
                proof {
                    lemma_push(self.entries@, entry);
                }
                self.entries.push(entry);
            },
        }
    }

    /// Drops the entry under `abs_path`. Where there is none, the index
    /// stays as it is.
    pub fn remove(&mut self, abs_path: &str)
        requires
            old(self).wf(),
        ensures
            final(self).wf(),
            final(self)@ == old(self)@.remove(abs_path@),
            !old(self)@.dom().contains(abs_path@) ==> final(self)@ == old(self)@,
            final(self).durable_view() == old(self).durable_view(),
    {
        match position(&self.entries, abs_path) {
            Some(i) => {
                proof {
                    lemma_take_out(self.entries@, i as int);
                }
                self.entries.remove(i);
            },
            None => {
                proof {
                    lemma_absent(self.entries@, abs_path@);
                }
            },
        }
    }

    /// Makes the live entries durable.
    pub fn commit(&mut self)
        requires
            old(self).wf(),
        ensures
            final(self).wf(),
            final(self)@ == old(self)@,
            final(self).durable_view() == old(self)@,
    {
        let mut copy: Vec<IndexEntry> = Vec::new();
        let mut i: usize = 0;
        while i < self.entries.len()
            invariant
                i <= self.entries@.len(),
                self.wf(),
                copy@ == self.entries@.take(i as int),
            decreases self.entries@.len() - i,
        {
            let entry = self.entries[i].duplicate();
            copy.push(entry);
            assert(self.entries@.take(i + 1) =~= self.entries@.take(i as int).push(
                self.entries@[i as int],
            ));
            i += 1;
        }
        assert(self.entries@.take(i as int) =~= self.entries@);
        self.durable = copy;
    }

    /// Carries out one instruction.
    pub fn apply(&mut self, op: IndexOp)
        requires
            old(self).wf(),
        ensures
            final(self).wf(),
            final(self)@ == apply_op(old(self)@, op@),
            final(self).durable_view() == old(self).durable_view(),
    {
        match op {
            IndexOp::Add(entry) => self.add(entry),
            IndexOp::Remove(abs_path) => self.remove(abs_path.as_str()),
        }
    }

    /// Carries out a list of instructions, first to last.
    pub fn apply_all(&mut self, ops: &Vec<IndexOp>)
        requires
            old(self).wf(),
        ensures
            final(self).wf(),
            final(self)@ == apply_ops(old(self)@, ops_view(ops@)),
            final(self).durable_view() == old(self).durable_view(),
    {
        let mut i: usize = 0;
        while i < ops.len()
            invariant
                i <= ops@.len(),
                self.wf(),
                self@ == apply_ops(old(self)@, ops_view(ops@.take(i as int))),
                self.durable_view() == old(self).durable_view(),
            decreases ops@.len() - i,
        {
            let op = ops[i].duplicate();
            proof {
                let done = ops_view(ops@.take(i as int));
                let next = ops_view(ops@.take(i + 1));
                assert(next.drop_last() =~= done);
                assert(next.last() == ops@[i as int]@);
            }
            self.apply(op);
            i += 1;
        }
        assert(ops@.take(i as int) =~= ops@);
    }
}

} // verus!
