//! The index as the watcher sees it: entries keyed by their absolute path,
//! the instructions that change it, and what they do to it.

use vstd::prelude::*;

verus! {

/// What the index keeps of one file or directory.
#[derive(Clone, PartialEq, Eq, Debug)]
pub struct IndexEntry {
    pub abs_path: String,
    pub name: String,
}

/// An index entry as plain values.
pub struct EntryView {
    pub abs_path: Seq<char>,
    pub name: Seq<char>,
}

impl View for IndexEntry {
    type V = EntryView;

    open spec fn view(&self) -> EntryView {
        EntryView { abs_path: self.abs_path@, name: self.name@ }
    }
}

impl IndexEntry {
    /// A copy of the entry.
    pub fn duplicate(&self) -> (copy: IndexEntry)
        ensures
            copy == *self,
    {
        IndexEntry { abs_path: self.abs_path.clone(), name: self.name.clone() }
    }
}

/// One instruction to the index.
#[derive(Clone, PartialEq, Eq, Debug)]
pub enum IndexOp {
    /// Store the entry under its path, in place of any entry already there.
    Add(IndexEntry),
    /// Drop the entry stored under the path, if there is one.
    Remove(String),
}

/// An instruction as plain values.
pub enum OpView {
    Add(EntryView),
    Remove(Seq<char>),
}

impl View for IndexOp {
    type V = OpView;

    open spec fn view(&self) -> OpView {
        match self {
            IndexOp::Add(entry) => OpView::Add(entry@),
            IndexOp::Remove(abs_path) => OpView::Remove(abs_path@),
        }
    }
}

impl IndexOp {
    /// A copy of the instruction.
    pub fn duplicate(&self) -> (copy: IndexOp)
        ensures
            copy == *self,
    {
        match self {
            IndexOp::Add(entry) => IndexOp::Add(entry.duplicate()),
            IndexOp::Remove(abs_path) => IndexOp::Remove(abs_path.clone()),
        }
    }
}

/// What an index holds: the name stored under each path.
pub type IndexState = Map<Seq<char>, Seq<char>>;

/// The views of a list of instructions, in order.
pub open spec fn ops_view(ops: Seq<IndexOp>) -> Seq<OpView> {
    ops.map_values(|op: IndexOp| op@)
}

/// The index after one instruction: an addition stores the entry's name
/// under its path, a removal drops the path.
pub open spec fn apply_op(state: IndexState, op: OpView) -> IndexState {
    match op {
        OpView::Add(entry) => state.insert(entry.abs_path, entry.name),
        OpView::Remove(abs_path) => state.remove(abs_path),
    }
}

/// The index after a list of instructions, carried out first to last.
pub open spec fn apply_ops(state: IndexState, ops: Seq<OpView>) -> IndexState
    decreases ops.len(),
{
    if ops.len() == 0 {
        state
    } else {
        apply_op(apply_ops(state, ops.drop_last()), ops.last())
    }
}

/// Whether `ops` holds an addition.
pub open spec fn has_addition(ops: Seq<OpView>) -> bool {
    exists|i: int| 0 <= i < ops.len() && #[trigger] ops[i] is Add
}

/// Whether `ops` holds an addition for `abs_path`.
pub open spec fn adds_path(ops: Seq<OpView>, abs_path: Seq<char>) -> bool {
    exists|i: int|
        0 <= i < ops.len() && #[trigger] ops[i] is Add && ops[i]->Add_0.abs_path == abs_path
}

/// Carrying out two lists one after the other is carrying out their
/// concatenation.
pub proof fn lemma_apply_concat(state: IndexState, first: Seq<OpView>, second: Seq<OpView>)
    ensures
        apply_ops(state, first + second) == apply_ops(apply_ops(state, first), second),
    decreases second.len(),
{
    if second.len() == 0 {
        assert(first + second =~= first);
    } else {
        assert((first + second).drop_last() =~= first + second.drop_last());
        assert((first + second).last() == second.last());
        lemma_apply_concat(state, first, second.drop_last());
    }
}

/// Idempotent removal. Removing a path that the index does not hold leaves
/// the index as it was.
pub proof fn lemma_remove_absent(state: IndexState, abs_path: Seq<char>)
    requires
        !state.dom().contains(abs_path),
    ensures
        apply_op(state, OpView::Remove(abs_path)) == state,
{
    assert(state.remove(abs_path) =~= state);
}

/// One addition under `abs_path` for each name of `names`, in order.
pub open spec fn repeated_adds(abs_path: Seq<char>, names: Seq<Seq<char>>) -> Seq<OpView> {
    Seq::new(names.len(), |i: int| OpView::Add(EntryView { abs_path, name: names[i] }))
}

/// Upsert uniqueness. After any number of additions under one path, the
/// index holds one entry for the path, with the name of the last addition,
/// and every other path is as it was.
pub proof fn lemma_upsert(state: IndexState, abs_path: Seq<char>, names: Seq<Seq<char>>)
    requires
        names.len() > 0,
    ensures
        apply_ops(state, repeated_adds(abs_path, names)) == state.insert(abs_path, names.last()),
    decreases names.len(),
{
    let ops = repeated_adds(abs_path, names);
    let before = repeated_adds(abs_path, names.drop_last());
    assert(ops.drop_last() =~= before);
    if names.len() == 1 {
        assert(apply_ops(state, before) == state);
    } else {
        lemma_upsert(state, abs_path, names.drop_last());
        assert(state.insert(abs_path, names.drop_last().last()).insert(abs_path, names.last())
            =~= state.insert(abs_path, names.last()));
    }
}

} // verus!
