//! The watcher: its life from registration to failure, the events it makes
//! of notifications, and the instructions it derives from them.

use vstd::prelude::*;
use crate::event::{classify, pending_after, ChangeEvent, ChangeEventView, OperationKind};
use crate::index::{has_addition, ops_view, IndexEntry, IndexOp};
use crate::paths::{display_name, file_name_of, name_or_empty, parent_of, path_parent, text_of};
use crate::processor::{
    event_plan, lemma_vanished_adds_nothing, removal_ops, resolved_views, subtree_adds,
    Observation, Resolved,
};
use crate::snapshot::{
    resolution, resolution_view, snapshot_view, stamp_of, timestamp_of, AttributeSnapshot,
    EpochOffset, MetadataResolutionError, RawAttributes, SnapshotView,
};

verus! {

/// Why a watch could not be registered.
#[derive(Clone, PartialEq, Eq, Debug)]
pub enum SetupCause {
    /// The root does not exist.
    PathNotFound,
    /// The backend knows of no watch for the root.
    WatchNotFound,
    /// The operating system refused, with this message.
    Io(String),
    /// Anything else, with the backend's message.
    Generic(String),
}

/// A setup cause as plain values.
pub enum SetupCauseView {
    PathNotFound,
    WatchNotFound,
    Io(Seq<char>),
    Generic(Seq<char>),
}

impl View for SetupCause {
    type V = SetupCauseView;

    open spec fn view(&self) -> SetupCauseView {
        match self {
            SetupCause::PathNotFound => SetupCauseView::PathNotFound,
            SetupCause::WatchNotFound => SetupCauseView::WatchNotFound,
            SetupCause::Io(message) => SetupCauseView::Io(message@),
            SetupCause::Generic(message) => SetupCauseView::Generic(message@),
        }
    }
}

/// The watch on `root` could not be registered.
#[derive(Clone, PartialEq, Eq, Debug)]
pub struct WatchSetupError {
    pub root: String,
    pub cause: SetupCause,
}

/// The channel that delivers the notifications for `root` broke.
#[derive(Clone, PartialEq, Eq, Debug)]
pub struct ObservationError {
    pub root: String,
}

/// Where a watcher is in its life.
#[derive(Clone, Copy, PartialEq, Eq, Debug, Structural)]
pub enum Phase {
    /// Made, and not started.
    Idle,
    /// Waiting to hear whether the watch was registered.
    Registering,
    /// Registered, and taking notifications.
    Watching,
    /// Registration failed. The watcher stays here.
    Failed,
    /// The notification channel broke. The watcher stays here.
    Broken,
}

/// One delivery of the notification backend, as it came: the path and the
/// flags may each be missing.
#[derive(Clone, PartialEq, Eq, Debug)]
pub struct Notification {
    pub path: Option<String>,
    pub flags: Option<u32>,
    pub cookie: Option<u32>,
}

/// A notification as plain values.
pub struct NotificationView {
    pub path: Option<Seq<char>>,
    pub flags: Option<u32>,
    pub cookie: Option<u32>,
}

impl View for Notification {
    type V = NotificationView;

    open spec fn view(&self) -> NotificationView {
        NotificationView { path: text_of(self.path), flags: self.flags, cookie: self.cookie }
    }
}

/// What the surrounding program is to do next.
#[derive(Clone, PartialEq, Eq, Debug)]
pub enum Directive {
    /// Register a recursive watch on this root and report how it went.
    Register(String),
    /// The watch stands: start the commit schedule and wait for the first
    /// notification.
    BeginWatching,
    /// Nothing to do for this delivery: wait for the next one.
    Listen,
    /// Look into this event, carry out what it asks of the index, and wait
    /// for the next notification.
    Process(ChangeEvent),
    /// Registration failed: report it. No notification will be taken.
    SetupFailed(WatchSetupError),
    /// The channel broke: report it and stop reading.
    StreamBroken(ObservationError),
    /// The watcher is in no state to take this step, and has not changed.
    Rejected,
}

/// A directive as plain values.
pub enum DirectiveView {
    Register(Seq<char>),
    BeginWatching,
    Listen,
    Process(ChangeEventView),
    SetupFailed(Seq<char>, SetupCauseView),
    StreamBroken(Seq<char>),
    Rejected,
}

impl View for Directive {
    type V = DirectiveView;

    open spec fn view(&self) -> DirectiveView {
        match self {
            Directive::Register(root) => DirectiveView::Register(root@),
            Directive::BeginWatching => DirectiveView::BeginWatching,
            Directive::Listen => DirectiveView::Listen,
            Directive::Process(event) => DirectiveView::Process(event@),
            Directive::SetupFailed(error) => DirectiveView::SetupFailed(error.root@, error.cause@),
            Directive::StreamBroken(error) => DirectiveView::StreamBroken(error.root@),
            Directive::Rejected => DirectiveView::Rejected,
        }
    }
}

/// What else is to be read for an event once its own path has been
/// resolved: the directory whose subtree is to be listed, and the parent
/// directory that is to be resolved.
#[derive(Clone, PartialEq, Eq, Debug)]
pub struct FollowUp {
    pub enumerate: Option<String>,
    pub parent: Option<String>,
}

/// A follow-up as plain values.
pub struct FollowUpView {
    pub enumerate: Option<Seq<char>>,
    pub parent: Option<Seq<char>>,
}

impl View for FollowUp {
    type V = FollowUpView;

    open spec fn view(&self) -> FollowUpView {
        FollowUpView { enumerate: text_of(self.enumerate), parent: text_of(self.parent) }
    }
}

/// The follow-up for an event at `path` whose own path resolved to
/// `subject` and whose parent directory is `parent`. Where the path did not
/// resolve, nothing more is read. Where it did, its subtree is listed if it
/// is a directory, and its parent is resolved if it has one.
pub open spec fn follow_up_with(
    path: Seq<char>,
    subject: Option<SnapshotView>,
    parent: Option<Seq<char>>,
) -> FollowUpView {
    match subject {
        None => FollowUpView { enumerate: None, parent: None },
        Some(snapshot) => FollowUpView {
            enumerate: if snapshot.is_directory {
                Some(path)
            } else {
                None
            },
            parent,
        },
    }
}

/// The follow-up for an event at `path` whose own path resolved to
/// `subject`: the parent is the one that the path text gives.
pub open spec fn follow_up_of(path: Seq<char>, subject: Option<SnapshotView>) -> FollowUpView {
    follow_up_with(path, subject, path_parent(path))
}

/// The state of a watcher as plain values.
pub struct WatcherView {
    /// The watched root.
    pub root: Seq<char>,
    pub phase: Phase,
    /// The correlator of a rename whose arrival half is still awaited.
    pub pending_rename: Option<u32>,
}

/// A watcher over one root.
pub struct FsWatcher {
    path: String,
    phase: Phase,
    pending_rename: Option<u32>,
}

impl View for FsWatcher {
    type V = WatcherView;

    closed spec fn view(&self) -> WatcherView {
        WatcherView { root: self.path@, phase: self.phase, pending_rename: self.pending_rename }
    }
}

/// The watcher `watcher` moved to `phase`.
pub open spec fn in_phase(watcher: WatcherView, phase: Phase) -> WatcherView {
    WatcherView { phase, ..watcher }
}

/// The views of a registration outcome.
pub open spec fn outcome_view(outcome: Result<(), SetupCause>) -> Result<(), SetupCauseView> {
    match outcome {
        Ok(_) => Ok(()),
        Err(cause) => Err(cause@),
    }
}

/// The watcher after it is started, and the directive it answers with. An
/// idle watcher asks for its watch to be registered; any other rejects the
/// step.
pub open spec fn after_start(watcher: WatcherView) -> (WatcherView, DirectiveView) {
    if watcher.phase == Phase::Idle {
        (in_phase(watcher, Phase::Registering), DirectiveView::Register(watcher.root))
    } else {
        (watcher, DirectiveView::Rejected)
    }
}

/// The watcher after the outcome of its registration, and the directive it
/// answers with. A watcher that waits for the outcome watches on success
/// and has failed for good otherwise, with the root and the cause in its
/// answer; any other rejects the step.
pub open spec fn after_registration(watcher: WatcherView, outcome: Result<(), SetupCauseView>) -> (
    WatcherView,
    DirectiveView,
) {
    if watcher.phase == Phase::Registering {
        match outcome {
            Ok(_) => (in_phase(watcher, Phase::Watching), DirectiveView::BeginWatching),
            Err(cause) => (
                in_phase(watcher, Phase::Failed),
                DirectiveView::SetupFailed(watcher.root, cause),
            ),
        }
    } else {
        (watcher, DirectiveView::Rejected)
    }
}

/// The watcher after a delivery, and the directive it answers with. Only a
/// watcher that watches takes deliveries. A delivery without path or
/// without flags is passed over; any other becomes an event of the kind
/// that its flags and correlator give.
pub open spec fn after_notification(watcher: WatcherView, delivery: NotificationView) -> (
    WatcherView,
    DirectiveView,
) {
    if watcher.phase == Phase::Watching {
        match (delivery.path, delivery.flags) {
            (Some(path), Some(flags)) => {
                let kind = classify(flags, delivery.cookie, watcher.pending_rename);
                (
                    WatcherView {
                        pending_rename: pending_after(
                            kind,
                            delivery.cookie,
                            watcher.pending_rename,
                        ),
                        ..watcher
                    },
                    DirectiveView::Process(
                        ChangeEventView { path, operation: kind, rename_cookie: delivery.cookie },
                    ),
                )
            },
            _ => (watcher, DirectiveView::Listen),
        }
    } else {
        (watcher, DirectiveView::Rejected)
    }
}

/// The watcher after its notification channel broke, and the directive it
/// answers with. A watcher that watches is broken for good, with its root
/// in the answer; any other rejects the step.
pub open spec fn after_disconnect(watcher: WatcherView) -> (WatcherView, DirectiveView) {
    if watcher.phase == Phase::Watching {
        (in_phase(watcher, Phase::Broken), DirectiveView::StreamBroken(watcher.root))
    } else {
        (watcher, DirectiveView::Rejected)
    }
}

/// A watcher that does not watch asks for nothing to be processed, whatever
/// is delivered to it, and stays as it is. So a watcher whose registration
/// failed, or whose channel broke, never reaches the index again.
pub proof fn lemma_only_watching_processes(watcher: WatcherView, delivery: NotificationView)
    requires
        watcher.phase != Phase::Watching,
    ensures
        after_notification(watcher, delivery) == (watcher, DirectiveView::Rejected),
{
}

/// A watcher that failed or broke stays so: it rejects every step.
pub proof fn lemma_terminal(
    watcher: WatcherView,
    outcome: Result<(), SetupCauseView>,
    delivery: NotificationView,
)
    requires
        watcher.phase == Phase::Failed || watcher.phase == Phase::Broken,
    ensures
        after_start(watcher) == (watcher, DirectiveView::Rejected),
        after_registration(watcher, outcome) == (watcher, DirectiveView::Rejected),
        after_notification(watcher, delivery) == (watcher, DirectiveView::Rejected),
        after_disconnect(watcher) == (watcher, DirectiveView::Rejected),
{
}

impl FsWatcher {
    /// A watcher for `path`, not yet started.
    pub fn new(path: String) -> (watcher: FsWatcher)
        ensures
            watcher@.root == path@,
            watcher@.phase == Phase::Idle,
            watcher@.pending_rename is None,
    {
        FsWatcher { path, phase: Phase::Idle, pending_rename: None }
    }

    /// The phase the watcher is in.
    pub fn phase(&self) -> (phase: Phase)
        ensures
            phase == self@.phase,
    {
        self.phase
    }

    /// The watched root.
    pub fn root(&self) -> (root: &String)
        ensures
            root@ == self@.root,
    {
        &self.path
    }

    /// Starts an idle watcher: it asks for the watch on its root to be
    /// registered. A watcher that was started before rejects the step.
    pub fn start(&mut self) -> (directive: Directive)
        ensures
            (final(self)@, directive@) == after_start(old(self)@),
    {
        match self.phase {
            Phase::Idle => {
                self.phase = Phase::Registering;
                Directive::Register(self.path.clone())
            },
            _ => Directive::Rejected,
        }
    }

    /// Takes the outcome of the registration that `start` asked for. On
    /// success the watcher watches; on failure it has failed for good, and
    /// the directive carries the error with the root and the cause.
    pub fn registered(&mut self, outcome: Result<(), SetupCause>) -> (directive: Directive)
        ensures
            (final(self)@, directive@) == after_registration(old(self)@, outcome_view(outcome)),
    {
        match self.phase {
            Phase::Registering => match outcome {
                Ok(_) => {
                    self.phase = Phase::Watching;
                    Directive::BeginWatching
                },
                Err(cause) => {
                    self.phase = Phase::Failed;
                    Directive::SetupFailed(WatchSetupError { root: self.path.clone(), cause })
                },
            },
            _ => Directive::Rejected,
        }
    }

    /// Takes one delivery of the notification backend. Only a watcher that
    /// watches takes deliveries: in any other phase nothing is processed.
    pub fn notified(&mut self, delivery: Notification) -> (directive: Directive)
        ensures
            (final(self)@, directive@) == after_notification(old(self)@, delivery@),
    {
        match self.phase {
            Phase::Watching => {
                let Notification { path, flags, cookie } = delivery;
                match (path, flags) {
                    (Some(path), Some(flags)) => {
                        let kind = OperationKind::of_flags(flags, cookie, self.pending_rename);
                        match kind {
                            OperationKind::RenameFrom => {
                                self.pending_rename = cookie;
                            },
                            OperationKind::RenameTo => {
                                self.pending_rename = None;
                            },
                            _ => {},
                        }
                        Directive::Process(
                            ChangeEvent { path, operation: kind, rename_cookie: cookie },
                        )
                    },
                    _ => Directive::Listen,
                }
            },
            _ => Directive::Rejected,
        }
    }

    /// Takes the news that the notification channel broke. A watcher that
    /// watches is broken for good, and the directive carries the error.
    pub fn disconnected(&mut self) -> (directive: Directive)
        ensures
            (final(self)@, directive@) == after_disconnect(old(self)@),
    {
        match self.phase {
            Phase::Watching => {
                self.phase = Phase::Broken;
                Directive::StreamBroken(ObservationError { root: self.path.clone() })
            },
            _ => Directive::Rejected,
        }
    }

    /// The name under which `path` is indexed: its final component, or the
    /// empty string where it has none.
    pub fn get_filename(path: &str) -> (name: String)
        ensures
            name@ == display_name(path@),
    {
        name_or_empty(file_name_of(path))
    }

    /// The timestamp of a point in time, in whole milliseconds since the
    /// epoch. A time before the epoch, or one whose milliseconds do not fit
    /// in 64 bits, is an error.
    pub fn parse_ts(time: EpochOffset) -> (stamp: Result<u64, MetadataResolutionError>)
        ensures
            stamp == timestamp_of(time),
    {
        if time.before_epoch {
            return Err(MetadataResolutionError::TimestampBeforeEpoch);
        }
        let fraction: u64 = (time.nanos / 1_000_000) as u64;
        match time.secs.checked_mul(1000) {
            None => Err(MetadataResolutionError::TimestampOutOfRange),
            Some(whole) => match whole.checked_add(fraction) {
                None => Err(MetadataResolutionError::TimestampOutOfRange),
                Some(millis) => Ok(millis),
            },
        }
    }

    /// The timestamp of a time that the filesystem may not have kept.
    fn stamp(time: Option<EpochOffset>) -> (stamp: Result<u64, MetadataResolutionError>)
        ensures
            stamp == stamp_of(time),
    {
        match time {
            None => Err(MetadataResolutionError::TimestampUnavailable),
            Some(offset) => Self::parse_ts(offset),
        }
    }

    /// Makes the snapshot of `path` from what a metadata read reported, or
    /// says why there is none. `stat` is `None` where the read itself
    /// failed.
    pub fn resolve(path: &str, stat: Option<RawAttributes>) -> (outcome: Result<
        AttributeSnapshot,
        MetadataResolutionError,
    >)
        ensures
            resolution_view(outcome) == resolution(path@, stat),
    {
        let raw = match stat {
            Some(raw) => raw,
            None => {
                return Err(MetadataResolutionError::Inaccessible);
            },
        };
        let created_at: u64 = match Self::stamp(raw.created) {
            Ok(stamp) => stamp,
            Err(e) => {
                return Err(e);
            },
        };
        let modified_at: u64 = match Self::stamp(raw.modified) {
            Ok(stamp) => stamp,
            Err(e) => {
                return Err(e);
            },
        };
        Ok(
            AttributeSnapshot {
                name: Self::get_filename(path),
                created_at,
                modified_at,
                size_bytes: raw.size_bytes,
                is_directory: raw.is_directory,
            },
        )
    }

    /// Says what else is to be read for `event`, now that its own path has
    /// been resolved to `subject`.
    pub fn follow_up(event: &ChangeEvent, subject: &Option<AttributeSnapshot>) -> (next: FollowUp)
        ensures
            next@ == follow_up_of(event@.path, snapshot_view(*subject)),
    {
        let parent = match subject {
            Some(_) => parent_of(event.path.as_str()),
            None => None,
        };
        Self::follow_up_from(event, subject, parent)
    }

    /// Says what else is to be read for `event`, now that its own path has
    /// been resolved to `subject`, where `parent` is the parent directory
    /// of the event's path.
    pub fn follow_up_from(
        event: &ChangeEvent,
        subject: &Option<AttributeSnapshot>,
        parent: Option<String>,
    ) -> (next: FollowUp)
        ensures
            next@ == follow_up_with(event@.path, snapshot_view(*subject), text_of(parent)),
    {
        match subject {
            None => FollowUp { enumerate: None, parent: None },
            Some(snapshot) => {
                let enumerate = if snapshot.is_directory {
                    Some(event.path.clone())
                } else {
                    None
                };
                FollowUp { enumerate, parent }
            },
        }
    }

    /// The additions for the paths found under a directory: one for each
    /// path of `subs` that resolved, in order, under the name of its
    /// snapshot. A path that vanished before it could be read is passed
    /// over.
    pub fn save_subs(subs: &Vec<Resolved>) -> (ops: Vec<IndexOp>)
        ensures
            ops_view(ops@) == subtree_adds(resolved_views(subs@)),
    {
        let mut ops: Vec<IndexOp> = Vec::new();
        let mut i: usize = 0;
        assert(resolved_views(subs@.take(0)) =~= Seq::empty());
        assert(ops_view(ops@) =~= Seq::empty());
        while i < subs.len()
            invariant
                i <= subs@.len(),
                ops_view(ops@) == subtree_adds(resolved_views(subs@.take(i as int))),
            decreases subs@.len() - i,
        {
            proof {
                let done = resolved_views(subs@.take(i as int));
                let next = resolved_views(subs@.take(i + 1));
                assert(next.drop_last() =~= done);
                assert(next.last() == subs@[i as int]@);
            }
            let sub = &subs[i];
            match &sub.snapshot {
                Some(snapshot) => {
                    let ghost before = ops@;
                    let op = IndexOp::Add(
                        IndexEntry { abs_path: sub.path.clone(), name: snapshot.name.clone() },
                    );
                    ops.push(op);
                    assert(ops_view(ops@) =~= ops_view(before).push(op@));
                },
                None => {},
            }
            i += 1;
        }
        assert(subs@.take(i as int) =~= subs@);
        ops
    }

    /// Everything that `event` asks of the index, given what was observed
    /// for it, in the order in which it is to be carried out. A removal is
    /// asked for first, whatever was observed. Where the path of the event
    /// did not resolve, nothing is added.
    pub fn process_event(event: &ChangeEvent, observed: &Observation) -> (ops: Vec<IndexOp>)
        ensures
            ops_view(ops@) == event_plan(event@, observed@),
            observed@.subject is None ==> !has_addition(ops_view(ops@)),
    {
        let mut ops: Vec<IndexOp> = Vec::new();
        assert(ops_view(ops@) =~= Seq::empty());
        if event.operation.includes_remove() {
            let op = IndexOp::Remove(event.path.clone());
            ops.push(op);
            assert(ops_view(ops@) =~= seq![op@]);
        }
        assert(ops_view(ops@) =~= removal_ops(event@));
        match &observed.subject {
            None => {
                proof {
                    lemma_vanished_adds_nothing(event@, observed@);
                }
            },
            Some(subject) => {
                if subject.is_directory {
                    let mut under = Self::save_subs(&observed.descendants);
                    let ghost before = ops@;
                    let ghost added = under@;
                    ops.append(&mut under);
                    assert(ops_view(ops@) =~= ops_view(before) + ops_view(added));
                }
                match &observed.parent {
                    Some(parent) => match &parent.snapshot {
                        Some(snapshot) => {
                            let ghost before = ops@;
                            let op = IndexOp::Add(
                                IndexEntry {
                                    abs_path: parent.path.clone(),
                                    name: snapshot.name.clone(),
                                },
                            );
                            ops.push(op);
                            assert(ops_view(ops@) =~= ops_view(before).push(op@));
                        },
                        None => {},
                    },
                    None => {},
                }
                let ghost before = ops@;
                let op = IndexOp::Add(
                    IndexEntry { abs_path: event.path.clone(), name: subject.name.clone() },
                );
                ops.push(op);
                assert(ops_view(ops@) =~= ops_view(before).push(op@));
                assert(ops_view(ops@) =~= event_plan(event@, observed@));
            },
        }
        ops
    }
}

} // verus!
