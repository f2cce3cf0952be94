//! The commit schedule: when the index is told to make its entries durable.

use vstd::prelude::*;

verus! {

/// The pause between two commits, in milliseconds, where nothing else is
/// asked for.
pub const DEFAULT_COMMIT_INTERVAL_MS: u64 = 1000;

/// One step of the commit schedule.
#[derive(Clone, Copy, PartialEq, Eq, Debug, Structural)]
pub enum CommitStep {
    /// Tell the index to commit.
    Commit,
    /// Wait for this many milliseconds.
    Sleep(u64),
}

/// The state of a schedule as plain values.
pub struct ScheduleView {
    pub interval_ms: u64,
    /// Whether the next step is a commit.
    pub commit_due: bool,
}

/// The schedule of commits for one index. It runs beside the processing of
/// events and shares nothing with it but the index.
pub struct CommitScheduler {
    interval_ms: u64,
    commit_due: bool,
}

impl View for CommitScheduler {
    type V = ScheduleView;

    closed spec fn view(&self) -> ScheduleView {
        ScheduleView { interval_ms: self.interval_ms, commit_due: self.commit_due }
    }
}

/// The step that a schedule hands out next: the commit where one is due,
/// and a pause of the interval otherwise.
pub open spec fn step_of(schedule: ScheduleView) -> CommitStep {
    if schedule.commit_due {
        CommitStep::Commit
    } else {
        CommitStep::Sleep(schedule.interval_ms)
    }
}

/// The schedule after it has handed out a step: commits and pauses take
/// turns.
pub open spec fn after_step(schedule: ScheduleView) -> ScheduleView {
    ScheduleView { commit_due: !schedule.commit_due, ..schedule }
}

/// The schedule after `n` steps.
pub open spec fn after_steps(schedule: ScheduleView, n: nat) -> ScheduleView
    decreases n,
{
    if n == 0 {
        schedule
    } else {
        after_step(after_steps(schedule, (n - 1) as nat))
    }
}

/// A schedule with the given pause that has handed out nothing yet: its
/// first step is a commit.
pub open spec fn fresh(interval_ms: u64) -> ScheduleView {
    ScheduleView { interval_ms, commit_due: true }
}

/// A fresh schedule commits at every even step and pauses for its interval
/// at every odd one, without end.
pub proof fn lemma_schedule(interval_ms: u64, n: nat)
    ensures
        after_steps(fresh(interval_ms), n).interval_ms == interval_ms,
        n % 2 == 0 ==> step_of(after_steps(fresh(interval_ms), n)) == CommitStep::Commit,
        n % 2 == 1 ==> step_of(after_steps(fresh(interval_ms), n)) == CommitStep::Sleep(
            interval_ms,
        ),
    decreases n,
{
    if n > 0 {
        lemma_schedule(interval_ms, (n - 1) as nat);
    }
}

impl CommitScheduler {
    /// A schedule with the given pause, whose first step is a commit.
    pub fn new(interval_ms: u64) -> (scheduler: CommitScheduler)
        ensures
            scheduler@ == fresh(interval_ms),
    {
        CommitScheduler { interval_ms, commit_due: true }
    }

    /// Hands out the next step. There always is one: the schedule has no
    /// end.
    pub fn next_step(&mut self) -> (step: CommitStep)
        ensures
            step == step_of(old(self)@),
            final(self)@ == after_step(old(self)@),
    {
        if self.commit_due {
            self.commit_due = false;
            CommitStep::Commit
        } else {
            self.commit_due = true;
            CommitStep::Sleep(self.interval_ms)
        }
    }
}

} // verus!
