//! What one change event asks of the index, given what the filesystem
//! answered when the event was looked into.

use vstd::prelude::*;
use crate::event::{ChangeEventView, OperationKind};
use crate::index::{
    adds_path, apply_ops, has_addition, lemma_apply_concat, EntryView, IndexState, OpView,
};
use crate::paths::path_parent;
use crate::snapshot::{snapshot_view, AttributeSnapshot, SnapshotView};

verus! {

/// The outcome of reading the metadata of one path: its snapshot, or
/// nothing where the path could not be read.
#[derive(Clone, PartialEq, Eq, Debug)]
pub struct Resolved {
    pub path: String,
    pub snapshot: Option<AttributeSnapshot>,
}

/// A resolved path as plain values.
pub struct ResolvedView {
    pub path: Seq<char>,
    pub snapshot: Option<SnapshotView>,
}

impl View for Resolved {
    type V = ResolvedView;

    open spec fn view(&self) -> ResolvedView {
        ResolvedView { path: self.path@, snapshot: snapshot_view(self.snapshot) }
    }
}

/// The view of an optional resolved path.
pub open spec fn resolved_view(sub: Option<Resolved>) -> Option<ResolvedView> {
    match sub {
        Some(r) => Some(r@),
        None => None,
    }
}

/// The views of a list of resolved paths, in order.
pub open spec fn resolved_views(subs: Seq<Resolved>) -> Seq<ResolvedView> {
    subs.map_values(|sub: Resolved| sub@)
}

/// What the filesystem answered for one event: the snapshot of the event's
/// own path, the resolved paths under it where it is a directory, and its
/// parent directory, resolved, where it has one.
#[derive(Clone, PartialEq, Eq, Debug)]
pub struct Observation {
    pub subject: Option<AttributeSnapshot>,
    pub descendants: Vec<Resolved>,
    pub parent: Option<Resolved>,
}

/// An observation as plain values.
pub struct ObservationView {
    pub subject: Option<SnapshotView>,
    pub descendants: Seq<ResolvedView>,
    pub parent: Option<ResolvedView>,
}

impl View for Observation {
    type V = ObservationView;

    open spec fn view(&self) -> ObservationView {
        ObservationView {
            subject: snapshot_view(self.subject),
            descendants: resolved_views(self.descendants@),
            parent: resolved_view(self.parent),
        }
    }
}

/// The addition of `abs_path` under `name`.
pub open spec fn addition(abs_path: Seq<char>, name: Seq<char>) -> OpView {
    OpView::Add(EntryView { abs_path, name })
}

/// The removal that an event asks for before anything is read: its own
/// path where it is a removal, nothing otherwise.
pub open spec fn removal_ops(event: ChangeEventView) -> Seq<OpView> {
    if event.operation == OperationKind::Remove {
        seq![OpView::Remove(event.path)]
    } else {
        Seq::empty()
    }
}

/// One addition for each path of `subs` that resolved, in the order of
/// `subs`; paths that did not resolve are passed over.
pub open spec fn subtree_adds(subs: Seq<ResolvedView>) -> Seq<OpView>
    decreases subs.len(),
{
    if subs.len() == 0 {
        Seq::empty()
    } else {
        let before = subtree_adds(subs.drop_last());
        match subs.last().snapshot {
            Some(snapshot) => before.push(addition(subs.last().path, snapshot.name)),
            None => before,
        }
    }
}

/// Whether a parent directory was observed and resolved.
pub open spec fn parent_resolved(parent: Option<ResolvedView>) -> bool {
    parent is Some && parent->Some_0.snapshot is Some
}

/// The addition of the parent directory, where one was observed and it
/// resolved.
pub open spec fn parent_adds(parent: Option<ResolvedView>) -> Seq<OpView> {
    if parent_resolved(parent) {
        seq![addition(parent->Some_0.path, parent->Some_0.snapshot->Some_0.name)]
    } else {
        Seq::empty()
    }
}

/// The additions that repair the index around `path`: none where the path
/// did not resolve; otherwise the resolved paths under it where it is a
/// directory, then its parent, then the path itself. Paths observed under
/// a path that is no directory are left aside.
pub open spec fn repair_ops(path: Seq<char>, observed: ObservationView) -> Seq<OpView> {
    match observed.subject {
        None => Seq::empty(),
        Some(subject) => {
            let under = if subject.is_directory {
                subtree_adds(observed.descendants)
            } else {
                Seq::empty()
            };
            under + parent_adds(observed.parent) + seq![addition(path, subject.name)]
        },
    }
}

/// Everything that one event asks of the index, in the order in which it is
/// to be carried out: the removal first, then the repair.
pub open spec fn event_plan(event: ChangeEventView, observed: ObservationView) -> Seq<OpView> {
    removal_ops(event) + repair_ops(event.path, observed)
}

/// Every instruction of `ops` is an addition.
pub open spec fn only_additions(ops: Seq<OpView>) -> bool {
    forall|i: int| 0 <= i < ops.len() ==> #[trigger] ops[i] is Add
}

/// The additions for a subtree are additions, and hold one for each path
/// under it that resolved.
proof fn lemma_subtree_adds(subs: Seq<ResolvedView>)
    ensures
        only_additions(subtree_adds(subs)),
        forall|k: int|
            0 <= k < subs.len() && (#[trigger] subs[k]).snapshot is Some ==> adds_path(
                subtree_adds(subs),
                subs[k].path,
            ),
    decreases subs.len(),
{
    if subs.len() > 0 {
        let rest = subs.drop_last();
        let before = subtree_adds(rest);
        let all = subtree_adds(subs);
        lemma_subtree_adds(rest);
        assert forall|k: int|
            0 <= k < subs.len() && (#[trigger] subs[k]).snapshot is Some implies adds_path(
            all,
            subs[k].path,
        ) by {
            if k < rest.len() {
                assert(rest[k] == subs[k]);
                assert(adds_path(before, rest[k].path));
                let i = choose|i: int|
                    0 <= i < before.len() && #[trigger] before[i] is Add
                        && before[i]->Add_0.abs_path == rest[k].path;
                assert(all[i] == before[i]);
            } else {
                let i = all.len() - 1;
                assert(all[i] is Add && all[i]->Add_0.abs_path == subs[k].path);
            }
        }
    }
}

/// A repair only adds.
proof fn lemma_repair_only_adds(path: Seq<char>, observed: ObservationView)
    ensures
        only_additions(repair_ops(path, observed)),
{
    lemma_subtree_adds(observed.descendants);
}

/// A path that a list of additions adds is in the index afterwards.
proof fn lemma_addition_lands(state: IndexState, ops: Seq<OpView>, abs_path: Seq<char>)
    requires
        only_additions(ops),
        adds_path(ops, abs_path),
    ensures
        apply_ops(state, ops).dom().contains(abs_path),
    decreases ops.len(),
{
    let i = choose|i: int|
        0 <= i < ops.len() && #[trigger] ops[i] is Add && ops[i]->Add_0.abs_path == abs_path;
    assert(ops.last() is Add);
    if i < ops.len() - 1 {
        let rest = ops.drop_last();
        assert(rest[i] == ops[i]);
        assert forall|j: int| 0 <= j < rest.len() implies #[trigger] rest[j] is Add by {
            assert(rest[j] == ops[j]);
        }
        lemma_addition_lands(state, rest, abs_path);
    }
}

/// Subtree completeness. When the path of an event resolves to a directory,
/// then after the event the index holds the directory itself and every path
/// under it that resolved, whatever the index held before.
pub proof fn lemma_subtree_complete(
    state: IndexState,
    event: ChangeEventView,
    observed: ObservationView,
)
    requires
        observed.subject is Some,
        observed.subject->Some_0.is_directory,
    ensures
        apply_ops(state, event_plan(event, observed)).dom().contains(event.path),
        forall|k: int|
            0 <= k < observed.descendants.len() && (#[trigger] observed.descendants[k]).snapshot
                is Some ==> apply_ops(state, event_plan(event, observed)).dom().contains(
                observed.descendants[k].path,
            ),
{
    let repair = repair_ops(event.path, observed);
    let cleared = apply_ops(state, removal_ops(event));
    lemma_apply_concat(state, removal_ops(event), repair);
    lemma_repair_only_adds(event.path, observed);
    lemma_subtree_adds(observed.descendants);
    assert(repair[repair.len() - 1] == addition(event.path, observed.subject->Some_0.name));
    lemma_addition_lands(cleared, repair, event.path);
    assert forall|k: int|
        0 <= k < observed.descendants.len() && (#[trigger] observed.descendants[k]).snapshot
            is Some implies apply_ops(state, event_plan(event, observed)).dom().contains(
        observed.descendants[k].path,
    ) by {
        let under = subtree_adds(observed.descendants);
        let p = observed.descendants[k].path;
        assert(adds_path(under, p));
        let i = choose|i: int|
            0 <= i < under.len() && #[trigger] under[i] is Add && under[i]->Add_0.abs_path == p;
        assert(repair[i] == under[i]);
        lemma_addition_lands(cleared, repair, p);
    }
}

/// Parent freshness. When the path of an event resolves, and its parent
/// directory was observed and resolved, the event adds the parent
/// directory, and the index holds it afterwards. The parent observed is
/// the one that the follow-up asked for: the parent of the event's path.
pub proof fn lemma_parent_fresh(
    state: IndexState,
    event: ChangeEventView,
    observed: ObservationView,
)
    requires
        observed.subject is Some,
        parent_resolved(observed.parent),
    ensures
        adds_path(event_plan(event, observed), observed.parent->Some_0.path),
        apply_ops(state, event_plan(event, observed)).dom().contains(observed.parent->Some_0.path),
        path_parent(event.path) == Some(observed.parent->Some_0.path) ==> apply_ops(
            state,
            event_plan(event, observed),
        ).dom().contains(path_parent(event.path)->Some_0),
{
    let dir = observed.parent->Some_0.path;
    let repair = repair_ops(event.path, observed);
    let plan = event_plan(event, observed);
    let cleared = apply_ops(state, removal_ops(event));
    lemma_apply_concat(state, removal_ops(event), repair);
    lemma_repair_only_adds(event.path, observed);
    let i = repair.len() - 2;
    assert(repair[i] == addition(dir, observed.parent->Some_0.snapshot->Some_0.name));
    assert(repair[i] is Add && repair[i]->Add_0.abs_path == dir);
    lemma_addition_lands(cleared, repair, dir);
    let j = removal_ops(event).len() + i;
    assert(plan[j] == repair[i]);
}

/// Resolution race tolerance. When the path of an event no longer resolves,
/// the event adds nothing: all it asks for is its removal, if it is one.
pub proof fn lemma_vanished_adds_nothing(event: ChangeEventView, observed: ObservationView)
    requires
        observed.subject is None,
    ensures
        event_plan(event, observed) == removal_ops(event),
        !has_addition(event_plan(event, observed)),
{
    assert(event_plan(event, observed) =~= removal_ops(event));
}

/// Ordering. When a removal whose path no longer resolves follows any
/// event, the path is absent from the index afterwards, whatever the first
/// event added.
pub proof fn lemma_removal_after(
    state: IndexState,
    first: ChangeEventView,
    seen_first: ObservationView,
    second: ChangeEventView,
    seen_second: ObservationView,
)
    requires
        second.operation == OperationKind::Remove,
        seen_second.subject is None,
    ensures
        !apply_ops(
            apply_ops(state, event_plan(first, seen_first)),
            event_plan(second, seen_second),
        ).dom().contains(second.path),
{
    let between = apply_ops(state, event_plan(first, seen_first));
    let plan = event_plan(second, seen_second);
    assert(plan =~= seq![OpView::Remove(second.path)]);
    assert(plan.drop_last() =~= Seq::<OpView>::empty());
    assert(apply_ops(between, plan.drop_last()) == between);
}

} // verus!
