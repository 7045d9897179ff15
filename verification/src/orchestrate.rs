//! The run's driver.
//!
//! The copy loop is driven by a small state machine: ask what to do next —
//! copy the next file, or finish, completed or interrupted — do it outside,
//! and record the outcome.  A stop is observed only between files: an
//! in-flight copy always finishes (or fails) first.  A per-file failure is
//! not fatal; the loop records it and goes on.

use vstd::prelude::*;

verus! {

/// Outcome of one file's copy attempt.
#[derive(Clone, Copy, Debug, PartialEq, Eq, Structural)]
pub enum CopyOutcome {
    /// The copy succeeded.
    Copied,
    /// The copy failed; the file was skipped and reported.
    Failed,
}

/// What the run does next.
#[derive(Clone, Copy, Debug, PartialEq, Eq, Structural)]
pub enum RunAction {
    /// Copy the file at this index of the file list, then record the
    /// outcome.
    CopyNext { index: usize },
    /// Every file was processed: render the completion summary.
    FinishComplete,
    /// A stop was observed: start no further copy and render the
    /// interruption summary.
    FinishInterrupted,
}

/// How many of a sequence of outcomes were successful copies.
pub open spec fn copied_count(h: Seq<CopyOutcome>) -> int
    decreases h,
{
    if h.len() == 0 {
        0
    } else {
        copied_count(h.drop_last()) + if h.last() is Copied {
            1int
        } else {
            0int
        }
    }
}

/// No more outcomes are successful than there are outcomes.
pub proof fn lemma_copied_count_bounds(h: Seq<CopyOutcome>)
    ensures
        0 <= copied_count(h) <= h.len(),
    decreases h,
{
    if h.len() > 0 {
        lemma_copied_count_bounds(h.drop_last());
    }
}

/// The copy loop's driver.
pub struct Orchestrator {
    total: usize,
    processed: usize,
    completed: usize,
    stopped: bool,
    history: Ghost<Seq<CopyOutcome>>,
}

impl Orchestrator {
    /// Total files of the run.
    pub closed spec fn spec_total(&self) -> int {
        self.total as int
    }

    /// Files processed so far, copied or failed.
    pub closed spec fn spec_processed(&self) -> int {
        self.processed as int
    }

    /// Files copied successfully so far.
    pub closed spec fn spec_completed(&self) -> int {
        self.completed as int
    }

    /// Whether a stop has been observed.
    pub closed spec fn spec_stopped(&self) -> bool {
        self.stopped
    }

    /// The outcomes recorded so far, in file order.
    pub closed spec fn outcomes(&self) -> Seq<CopyOutcome> {
        self.history@
    }

    /// The driver's invariant: one outcome per processed file, the
    /// completed count exactly the successful ones among them, and
    /// processing never passing the total.
    pub open spec fn wf(&self) -> bool {
        &&& self.outcomes().len() == self.spec_processed()
        &&& self.spec_completed() == copied_count(self.outcomes())
        &&& self.spec_processed() <= self.spec_total()
    }

    /// A fresh driver for a run over `total` files.
    pub fn new(total: usize) -> (o: Self)
        ensures
            o.wf(),
            o.spec_total() == total,
            o.spec_processed() == 0,
            o.spec_completed() == 0,
            !o.spec_stopped(),
            o.outcomes() == Seq::<CopyOutcome>::empty(),
    {
        Orchestrator {
            total,
            processed: 0,
            completed: 0,
            stopped: false,
            history: Ghost(Seq::empty()),
        }
    }

    /// Decides the next step of the loop.  A stop request is honoured only
    /// while files remain, and only once: after every file is processed
    /// the run finishes complete, and once stopped it stays stopped.
    pub fn next_action(&mut self, stop_requested: bool) -> (a: RunAction)
        requires
            old(self).wf(),
        ensures
            final(self).wf(),
            final(self).spec_total() == old(self).spec_total(),
            final(self).spec_processed() == old(self).spec_processed(),
            final(self).spec_completed() == old(self).spec_completed(),
            final(self).outcomes() == old(self).outcomes(),
            old(self).spec_stopped() ==> a is FinishInterrupted && final(self).spec_stopped(),
            !old(self).spec_stopped() && old(self).spec_processed() == old(self).spec_total()
                ==> a is FinishComplete && !final(self).spec_stopped(),
            !old(self).spec_stopped() && old(self).spec_processed() < old(self).spec_total()
                && stop_requested ==> a is FinishInterrupted && final(self).spec_stopped(),
            !old(self).spec_stopped() && old(self).spec_processed() < old(self).spec_total()
                && !stop_requested ==> a == (RunAction::CopyNext {
                index: old(self).spec_processed() as usize,
            }) && !final(self).spec_stopped(),
    {
        if self.stopped {
            RunAction::FinishInterrupted
        } else if self.processed == self.total {
            RunAction::FinishComplete
        } else if stop_requested {
            self.stopped = true;
            RunAction::FinishInterrupted
        } else {
            RunAction::CopyNext { index: self.processed }
        }
    }

    /// Records the outcome of the file the last `CopyNext` named: the
    /// processed count advances by one, and the completed count by one
    /// exactly when the copy succeeded.
    pub fn record(&mut self, outcome: CopyOutcome)
        requires
            old(self).wf(),
            !old(self).spec_stopped(),
            old(self).spec_processed() < old(self).spec_total(),
        ensures
            final(self).wf(),
            final(self).spec_total() == old(self).spec_total(),
            final(self).spec_stopped() == old(self).spec_stopped(),
            final(self).spec_processed() == old(self).spec_processed() + 1,
            final(self).outcomes() == old(self).outcomes().push(outcome),
            outcome is Copied ==> final(self).spec_completed() == old(self).spec_completed()
                + 1,
            outcome is Failed ==> final(self).spec_completed() == old(self).spec_completed(),
    {
        proof {
            lemma_copied_count_bounds(self.history@);
            assert(self.history@.push(outcome).drop_last() =~= self.history@);
        }
        self.processed = self.processed + 1;
        if let CopyOutcome::Copied = outcome {
            self.completed = self.completed + 1;
        }
        self.history = Ghost(self.history@.push(outcome));
    }

    /// Files processed so far.
    pub fn processed(&self) -> (n: usize)
        ensures
            n == self.spec_processed(),
    {
        self.processed
    }

    /// Files copied successfully so far.
    pub fn completed(&self) -> (n: usize)
        ensures
            n == self.spec_completed(),
    {
        self.completed
    }

    /// Total files of the run.
    pub fn total(&self) -> (n: usize)
        ensures
            n == self.spec_total(),
    {
        self.total
    }
}

/// Law: the reported counts of a run are accurate.  A well-formed driver's
/// completed count is exactly the number of successfully copied files
/// among those processed, and files never processed — those after an
/// interruption — are counted nowhere.
pub proof fn lemma_counts_accurate(o: &Orchestrator)
    requires
        o.wf(),
    ensures
        o.spec_completed() == copied_count(o.outcomes()),
        0 <= o.spec_completed() <= o.spec_processed() <= o.spec_total(),
{
    lemma_copied_count_bounds(o.outcomes());
}

} // verus!
