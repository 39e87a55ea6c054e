use vstd::prelude::*;
use crate::plan::Sample;

verus! {

/// The next outside step one video's run asks its shell to perform. The
/// shell owns the files and processes; the controller owns the order.
#[derive(Clone, Copy, Debug, PartialEq, Eq, Structural)]
pub enum Action {
    /// Remove any stale file at the staging slot, then have the decode
    /// service write the still nearest the timestamp into it.
    Extract { index: u64, timestamp_ms: u64 },
    /// Read the staged still at the slot back into memory and delete its
    /// file; deletion is best-effort, since a leftover cannot corrupt the
    /// sheet.
    Consume { index: u64 },
    /// Every frame is in memory and every staged file consumed: composite
    /// and persist the sheet.
    Finish,
    /// The run failed: remove whatever of the staging slots in
    /// `from..until` still exists, then stop.
    Abort { from: u64, until: u64 },
}

/// Sequences one run: extract every planned sample into its staging slot,
/// consume every slot in order, then finish; any reported failure leads to
/// a single cleanup step. The staging namespace the run may occupy at any
/// instant is exactly the slots `consumed..extracted`.
pub struct RunController {
    pub samples: Vec<Sample>,
    pub extracted: u64,
    pub consumed: u64,
    pub failed: bool,
    pub stopped: bool,
}

impl RunController {
    /// The controller invariant: slots are consumed only after extraction,
    /// never more than were planned, and a run only stops clean once every
    /// extracted slot has been consumed.
    pub open spec fn wf(self) -> bool {
        &&& self.consumed <= self.extracted <= self.samples@.len()
        &&& self.samples@.len() <= u64::MAX
        &&& (self.stopped && !self.failed ==> self.consumed == self.samples@.len()
            && self.extracted == self.samples@.len())
    }

    pub open spec fn spec_samples(self) -> Seq<Sample> {
        self.samples@
    }

    pub open spec fn spec_extracted(self) -> u64 {
        self.extracted
    }

    pub open spec fn spec_consumed(self) -> u64 {
        self.consumed
    }

    pub open spec fn spec_failed(self) -> bool {
        self.failed
    }

    pub open spec fn spec_stopped(self) -> bool {
        self.stopped
    }

    /// The staging slots this run may currently occupy on disk.
    pub open spec fn spec_staged(self) -> Set<int> {
        Set::new(|i: int| self.consumed <= i < self.extracted)
    }

    /// The step the controller asks for in its current state, or nothing
    /// once the run is over.
    pub open spec fn spec_next(self) -> Option<Action> {
        if self.stopped {
            None
        } else if self.failed {
            Some(Action::Abort { from: self.consumed, until: self.extracted })
        } else if self.extracted < self.samples@.len() {
            Some(
                Action::Extract {
                    index: self.extracted,
                    timestamp_ms: self.samples@[self.extracted as int].timestamp_ms,
                },
            )
        } else if self.consumed < self.samples@.len() {
            Some(Action::Consume { index: self.consumed })
        } else {
            Some(Action::Finish)
        }
    }

    /// Starts a run over a sample plan: nothing extracted, nothing staged.
    pub fn new(samples: Vec<Sample>) -> (c: RunController)
        requires
            samples@.len() <= u64::MAX,
        ensures
            c.wf(),
            c.spec_samples() == samples@,
            c.spec_extracted() == 0,
            c.spec_consumed() == 0,
            !c.spec_failed(),
            !c.spec_stopped(),
    {
        RunController { samples, extracted: 0, consumed: 0, failed: false, stopped: false }
    }

    /// The step the shell must perform now, or nothing once the run is
    /// over.
    pub fn next(&self) -> (r: Option<Action>)
        ensures
            r == self.spec_next(),
    {
        if self.stopped {
            None
        } else if self.failed {
            Some(Action::Abort { from: self.consumed, until: self.extracted })
        } else if self.extracted < self.samples.len() as u64 {
            let i: usize = self.extracted as usize;
            Some(
                Action::Extract {
                    index: self.extracted,
                    timestamp_ms: self.samples[i].timestamp_ms,
                },
            )
        } else if self.consumed < self.samples.len() as u64 {
            Some(Action::Consume { index: self.consumed })
        } else {
            Some(Action::Finish)
        }
    }

    /// Records the outcome of the step `next` last asked for: a successful
    /// extraction or consumption advances the run, a failure diverts it to
    /// cleanup, and finishing or aborting stops it. Once the run is over
    /// this changes nothing.
    pub fn report(&mut self, ok: bool)
        requires
            old(self).wf(),
        ensures
            final(self).wf(),
            final(self).samples@ == old(self).samples@,
            old(self).spec_next() is None ==> *final(self) == *old(self),
            (old(self).spec_next() matches Some(a) && a matches Action::Extract { .. }) ==> {
                &&& final(self).consumed == old(self).consumed
                &&& final(self).stopped == old(self).stopped
                &&& (ok ==> final(self).extracted == old(self).extracted + 1 && final(self).failed
                    == old(self).failed)
                &&& (!ok ==> final(self).extracted == old(self).extracted && final(self).failed)
            },
            (old(self).spec_next() matches Some(a) && a matches Action::Consume { .. }) ==> {
                &&& final(self).extracted == old(self).extracted
                &&& final(self).stopped == old(self).stopped
                &&& (ok ==> final(self).consumed == old(self).consumed + 1 && final(self).failed
                    == old(self).failed)
                &&& (!ok ==> final(self).consumed == old(self).consumed && final(self).failed)
            },
            (old(self).spec_next() matches Some(a) && a == Action::Finish) ==> {
                &&& final(self).extracted == old(self).extracted
                &&& final(self).consumed == old(self).consumed
                &&& final(self).stopped
                &&& final(self).failed == !ok
            },
            (old(self).spec_next() matches Some(a) && a matches Action::Abort { .. }) ==> {
                &&& final(self).extracted == old(self).extracted
                &&& final(self).consumed == old(self).consumed
                &&& final(self).stopped
                &&& final(self).failed == old(self).failed
            },
    {
        if self.stopped {
        } else if self.failed {
            self.stopped = true;
        } else if self.extracted < self.samples.len() as u64 {
            if ok {
                self.extracted = self.extracted + 1;
            } else {
                self.failed = true;
            }
        } else if self.consumed < self.samples.len() as u64 {
            if ok {
                self.consumed = self.consumed + 1;
            } else {
                self.failed = true;
            }
        } else {
            self.stopped = true;
            self.failed = !ok;
        }
    }

    /// The run is over and every step succeeded.
    pub fn succeeded(&self) -> (r: bool)
        ensures
            r == (self.spec_stopped() && !self.spec_failed()),
    {
        self.stopped && !self.failed
    }
}

/// A run that stopped clean left nothing in its staging namespace: every
/// slot it extracted was consumed, so the set of occupied slots is empty.
pub proof fn lemma_success_leaves_no_staging(c: RunController)
    requires
        c.wf(),
        c.spec_stopped(),
        !c.spec_failed(),
    ensures
        c.spec_staged() =~= Set::<int>::empty(),
{
}

/// A run never finishes while a staging slot is occupied: the controller
/// only asks for the final composite once every extracted slot has been
/// consumed.
pub proof fn lemma_finish_only_when_clean(c: RunController)
    requires
        c.wf(),
        c.spec_next() == Some(Action::Finish),
    ensures
        c.spec_staged() =~= Set::<int>::empty(),
{
}

/// When a run fails, the single cleanup step it asks for covers exactly
/// the staging slots the run may still occupy.
pub proof fn lemma_abort_covers_staging(c: RunController, from: u64, until: u64)
    requires
        c.wf(),
        c.spec_next() == Some(Action::Abort { from, until }),
    ensures
        c.spec_staged() =~= Set::new(|i: int| from <= i < until),
{
}

} // verus!
