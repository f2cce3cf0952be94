//! Walking the subtree under a directory: which directory is to be listed
//! next, and what the listings found so far add up to.

use vstd::prelude::*;

verus! {

/// One entry of a directory listing.
#[derive(Clone, PartialEq, Eq, Debug)]
pub struct Listed {
    pub path: String,
    pub is_directory: bool,
}

/// A listed entry as plain values.
pub struct ListedView {
    pub path: Seq<char>,
    pub is_directory: bool,
}

impl View for Listed {
    type V = ListedView;

    open spec fn view(&self) -> ListedView {
        ListedView { path: self.path@, is_directory: self.is_directory }
    }
}

/// The views of a listing, in order.
pub open spec fn listed_views(entries: Seq<Listed>) -> Seq<ListedView> {
    entries.map_values(|entry: Listed| entry@)
}

/// The characters of each string of a list, in order.
pub open spec fn texts(paths: Seq<String>) -> Seq<Seq<char>> {
    paths.map_values(|path: String| path@)
}

/// The paths of a listing, in order.
pub open spec fn paths_of(entries: Seq<ListedView>) -> Seq<Seq<char>> {
    entries.map_values(|entry: ListedView| entry.path)
}

/// The paths of the directories of a listing, in order.
pub open spec fn directories_of(entries: Seq<ListedView>) -> Seq<Seq<char>>
    decreases entries.len(),
{
    if entries.len() == 0 {
        Seq::empty()
    } else {
        let before = directories_of(entries.drop_last());
        if entries.last().is_directory {
            before.push(entries.last().path)
        } else {
            before
        }
    }
}

/// A walk as plain values.
pub struct WalkView {
    /// The directories that are still to be listed. The last one is next.
    pub pending: Seq<Seq<char>>,
    /// The paths found under the directory so far.
    pub found: Seq<Seq<char>>,
}

/// A walk over everything under one directory. The walk says which
/// directory to list next and takes the listing; it is complete when no
/// directory is left to list.
pub struct SubtreeWalk {
    pending: Vec<String>,
    found: Vec<String>,
}

impl View for SubtreeWalk {
    type V = WalkView;

    closed spec fn view(&self) -> WalkView {
        WalkView { pending: texts(self.pending@), found: texts(self.found@) }
    }
}

impl SubtreeWalk {
    /// A walk under `directory`: the directory itself is the first to be
    /// listed, and nothing has been found yet.
    pub fn begin(directory: String) -> (walk: SubtreeWalk)
        ensures
            walk@.pending == seq![directory@],
            walk@.found == Seq::<Seq<char>>::empty(),
    {
        let mut pending: Vec<String> = Vec::new();
        pending.push(directory);
        let walk = SubtreeWalk { pending, found: Vec::new() };
        assert(texts(walk.pending@) =~= seq![directory@]);
        assert(texts(walk.found@) =~= Seq::empty());
        walk
    }

    /// The directory to list next, taken off the walk; `None` when the walk
    /// is complete.
    pub fn next_directory(&mut self) -> (next: Option<String>)
        ensures
            final(self)@.found == old(self)@.found,
            old(self)@.pending.len() == 0 ==> next is None
                && final(self)@.pending == old(self)@.pending,
            old(self)@.pending.len() > 0 ==> next is Some
                && next->Some_0@ == old(self)@.pending.last()
                && final(self)@.pending == old(self)@.pending.drop_last(),
    {
        let next = self.pending.pop();
        proof {
            if old(self).pending@.len() > 0 {
                assert(texts(self.pending@) =~= texts(old(self).pending@).drop_last());
            }
        }
        next
    }

    /// Takes the listing of the directory that `next_directory` gave out:
    /// every entry is found, and every directory among them is to be
    /// listed in its turn. A directory that could not be listed has the
    /// empty listing.
    pub fn listed(&mut self, entries: &Vec<Listed>)
        ensures
            final(self)@.found == old(self)@.found + paths_of(listed_views(entries@)),
            final(self)@.pending == old(self)@.pending + directories_of(listed_views(entries@)),
    {
        let mut i: usize = 0;
        assert(paths_of(listed_views(entries@.take(0))) =~= Seq::empty());
        assert(listed_views(entries@.take(0)) =~= Seq::empty());
        assert(self@.found =~= old(self)@.found + Seq::empty());
        assert(self@.pending =~= old(self)@.pending + Seq::empty());
        while i < entries.len()
            invariant
                i <= entries@.len(),
                self@.found == old(self)@.found + paths_of(listed_views(entries@.take(i as int))),
                self@.pending == old(self)@.pending + directories_of(
                    listed_views(entries@.take(i as int)),
                ),
            decreases entries@.len() - i,
        {
            let ghost done = listed_views(entries@.take(i as int));
            let ghost next = listed_views(entries@.take(i + 1));
            let ghost found_before = self.found@;
            let ghost pending_before = self.pending@;
            proof {
                assert(next.drop_last() =~= done);
                assert(next.last() == entries@[i as int]@);
                assert(paths_of(next) =~= paths_of(done).push(entries@[i as int].path@));
            }
            let entry = &entries[i];
            self.found.push(entry.path.clone());
            assert(texts(self.found@) =~= texts(found_before).push(entry.path@));
            if entry.is_directory {
                self.pending.push(entry.path.clone());
                assert(texts(self.pending@) =~= texts(pending_before).push(entry.path@));
            }
            i += 1;
        }
        assert(entries@.take(i as int) =~= entries@);
    }

    /// Whether no directory is left to list.
    pub fn is_complete(&self) -> (complete: bool)
        ensures
            complete == (self@.pending.len() == 0),
    {
        self.pending.len() == 0
    }

    /// Ends the walk and hands out the paths found, in the order in which
    /// they were listed.
    pub fn finish(self) -> (found: Vec<String>)
        ensures
            texts(found@) == self@.found,
    {
        self.found
    }
}

} // verus!
