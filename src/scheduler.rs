//! The batch scheduler: a sliding pool that keeps at most `limit` pipelines
//! in flight and launches the next one as soon as one ends.
//!
//! The scheduler only counts. The caller launches the pipeline it is told
//! to, waits for one in flight to end (whether it succeeded, failed or timed
//! out), and reports that end back.

use vstd::prelude::*;

verus! {

/// The counts of one batch run.
#[derive(Clone, Copy, Debug, PartialEq, Eq, Structural)]
pub struct Scheduler {
    /// Repositories submitted.
    pub total: usize,
    /// Most pipelines in flight at once.
    pub limit: usize,
    /// Pipelines launched so far; the next one launched has this index.
    pub launched: usize,
    /// Pipelines launched and not yet ended.
    pub in_flight: usize,
    /// Pipelines that ended, or were abandoned after a timeout.
    pub finished: usize,
    /// Of those, how many ended in an error or a timeout.
    pub failed: usize,
}

/// What the caller is to do next.
#[derive(Clone, Copy, Debug, PartialEq, Eq, Structural)]
pub enum Step {
    /// Launch the pipeline of the repository at this index.
    Launch(usize),
    /// Wait for a pipeline in flight to end.
    Wait,
    /// Every repository has been through its pipeline.
    Done,
}

impl Scheduler {
    pub open spec fn wf(self) -> bool {
        &&& self.limit > 0
        &&& self.launched <= self.total
        &&& self.in_flight <= self.limit
        &&& self.finished + self.in_flight == self.launched
        &&& self.failed <= self.finished
    }

    /// The next step: launch while fewer than `limit` are in flight and some
    /// are left, else wait while some are in flight, else the run is done.
    pub open spec fn next_spec(self) -> Step {
        if self.launched < self.total && self.in_flight < self.limit {
            Step::Launch(self.launched)
        } else if self.in_flight > 0 {
            Step::Wait
        } else {
            Step::Done
        }
    }

    pub open spec fn after_launch(self) -> Scheduler {
        Scheduler { launched: (self.launched + 1) as usize, in_flight: (self.in_flight + 1) as usize, ..self }
    }

    pub open spec fn after_end(self, succeeded: bool) -> Scheduler {
        Scheduler {
            in_flight: (self.in_flight - 1) as usize,
            finished: (self.finished + 1) as usize,
            failed: if succeeded { self.failed } else { (self.failed + 1) as usize },
            ..self
        }
    }

    /// Steps still to come: each launch and each end counts one.
    pub open spec fn remaining(self) -> nat {
        (2 * self.total - self.launched - self.finished) as nat
    }

    /// A scheduler for `total` repositories with at most `limit` in flight.
    pub fn new(total: usize, limit: usize) -> (s: Scheduler)
        requires
            limit > 0,
        ensures
            s.wf(),
            s == (Scheduler { total, limit, launched: 0, in_flight: 0, finished: 0, failed: 0 }),
    {
        Scheduler { total, limit, launched: 0, in_flight: 0, finished: 0, failed: 0 }
    }

    /// The next step to take.
    pub fn next(&self) -> (st: Step)
        requires
            self.wf(),
        ensures
            st == self.next_spec(),
            st == Step::Done <==> self.finished == self.total,
    {
        if self.launched < self.total && self.in_flight < self.limit {
            Step::Launch(self.launched)
        } else if self.in_flight > 0 {
            Step::Wait
        } else {
            Step::Done
        }
    }

    /// Record that the pipeline `next` named was launched.
    pub fn launch(&mut self)
        requires
            old(self).wf(),
            old(self).next_spec() is Launch,
        ensures
            *final(self) == old(self).after_launch(),
            final(self).wf(),
            final(self).remaining() < old(self).remaining(),
    {
        self.launched = self.launched + 1;
        self.in_flight = self.in_flight + 1;
    }

    /// Record that a pipeline in flight ended, well or not, or was abandoned.
    pub fn end(&mut self, succeeded: bool)
        requires
            old(self).wf(),
            old(self).in_flight > 0,
        ensures
            *final(self) == old(self).after_end(succeeded),
            final(self).wf(),
            final(self).remaining() < old(self).remaining(),
    {
        self.in_flight = self.in_flight - 1;
        self.finished = self.finished + 1;
        if !succeeded {
            self.failed = self.failed + 1;
        }
    }
}

/// The run of a batch: launch whenever `next` says so, else take the next
/// ending from `ends` (whether that pipeline succeeded).
pub open spec fn run(s: Scheduler, ends: Seq<bool>) -> Scheduler
    decreases s.remaining(),
{
    if !s.wf() {
        s
    } else if s.next_spec() is Launch {
        run(s.after_launch(), ends)
    } else if s.in_flight > 0 && ends.len() > 0 {
        run(s.after_end(ends[0]), ends.drop_first())
    } else {
        s
    }
}

/// Every state of a run keeps at most `limit` pipelines in flight.
pub proof fn lemma_steps_keep_limit(s: Scheduler, succeeded: bool)
    requires
        s.wf(),
    ensures
        s.next_spec() is Launch ==> s.after_launch().wf() && s.after_launch().in_flight <= s.limit,
        s.in_flight > 0 ==> s.after_end(succeeded).wf() && s.after_end(succeeded).in_flight <= s.limit,
{
}

/// Whatever each pipeline's end (success, error or timeout), a run with one
/// ending for each pipeline still to end reaches the end of the batch: every
/// repository is finished, nothing is in flight, and the limit was kept.
pub proof fn lemma_run_finishes_all(s: Scheduler, ends: Seq<bool>)
    requires
        s.wf(),
        ends.len() == s.total - s.finished,
    ensures
        run(s, ends).wf(),
        run(s, ends).finished == s.total,
        run(s, ends).in_flight == 0,
        run(s, ends).next_spec() == Step::Done,
    decreases s.remaining(),
{
    if s.next_spec() is Launch {
        lemma_run_finishes_all(s.after_launch(), ends);
    } else if s.in_flight > 0 {
        lemma_run_finishes_all(s.after_end(ends[0]), ends.drop_first());
    }
}

} // verus!
