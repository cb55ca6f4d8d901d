use vstd::prelude::*;

use crate::engine::{resume_step, Engine, EngineModel, ResumeOutcome};
use crate::op::Slot;

verus! {

/// What one poll of the future adapter reports to the host scheduler.
#[derive(Debug)]
pub enum PollResult<V> {
    /// The alternate context suspended: not ready, poll again once the
    /// wake-up token is invoked.
    Pending,
    /// The body ran to its end; these are its results, in program order.
    Ready(Vec<V>),
    /// The body faulted.  The fault is reported to the caller of `poll`,
    /// never swallowed; the alternate stack has already unwound.
    Faulted,
}

/// The future adapter: wraps an [`Engine`] so it presents the standard
/// poll-based contract to the host scheduler.
///
/// Each `poll` derives nothing but one resumption: the alternate
/// context makes exactly one unit of forward progress — the adapter
/// never spins internally.  "Still suspended" maps to `Pending`; on
/// completion the results pass through the adapter's write-once result
/// slot: written at the moment the context completes, read exactly
/// once, immediately after.
pub struct CoroFuture<V> {
    /// The alternate-context engine being driven.
    pub engine: Engine<V>,
    /// The result slot, owned by the adapter.
    pub slot: Slot<Vec<V>>,
    /// The stack resource the alternate context owns, in bytes.
    pub stack_len: u64,
}

impl<V> CoroFuture<V> {
    /// The adapter's internal invariant.
    pub open spec fn wf(&self) -> bool {
        &&& self.engine.wf()
        &&& !(self.engine.state is Completed) ==> !self.slot.written && self.slot.val is None
        &&& self.engine.state is Completed ==> self.slot.written && self.slot.val is None
    }

    /// Whether the adapter may still be polled.
    pub open spec fn pollable(&self) -> bool {
        self.engine.resumable()
    }

    /// One poll with the scheduler's wake-up token: resume the alternate
    /// context once and translate what it reports.
    pub fn poll(&mut self, token: u64) -> (r: PollResult<V>)
        requires
            old(self).wf(),
            old(self).pollable(),
        ensures
            final(self).wf(),
            final(self).stack_len == old(self).stack_len,
            final(self).engine.resumes@ == old(self).engine.resumes@.push(token),
            ({
                let step = resume_step(old(self).engine.model(), token);
                &&& (step.state is Suspended ==> r is Pending && final(self).engine.model()
                    == step)
                &&& (step.state is Faulted ==> r is Faulted && final(self).engine.model() == step)
                &&& (step.state is Completed ==> (r matches PollResult::Ready(v) && v@
                    == step.done) && final(self).engine.model() == (EngineModel {
                    done: Seq::<V>::empty(),
                    ..step
                }) && final(self).slot.written)
            }),
    {
        match self.engine.resume(token) {
            ResumeOutcome::Suspended => PollResult::Pending,
            ResumeOutcome::Faulted => PollResult::Faulted,
            ResumeOutcome::Completed => {
                let mut v: Vec<V> = Vec::new();
                core::mem::swap(&mut v, &mut self.engine.done);
                self.slot.write(v);
                let out = self.slot.take();
                proof {
                    assert(final(self).engine.model() =~= (EngineModel {
                        done: Seq::<V>::empty(),
                        ..resume_step(old(self).engine.model(), token)
                    }));
                }
                PollResult::Ready(out)
            },
        }
    }

    /// Drop the adapter's alternate context before completion: the
    /// pending cleanup on the alternate stack runs exactly once; a
    /// context already terminal is left untouched.
    pub fn cancel(&mut self)
        requires
            old(self).wf(),
        ensures
            final(self).wf(),
            final(self).engine.released == final(self).engine.acquired,
            final(self).engine.acquired == old(self).engine.acquired,
            old(self).engine.state is Suspended ==> final(self).engine.state is Cancelled
                && final(self).engine.released == old(self).engine.released + 1,
            !(old(self).engine.state is Suspended) ==> final(self).engine == old(self).engine,
            final(self).slot == old(self).slot,
            final(self).stack_len == old(self).stack_len,
    {
        self.engine.cancel();
    }

    /// How many times the adapter has been polled.
    pub fn poll_count(&self) -> (r: u64)
        ensures
            r == self.engine.resumes@.len(),
    {
        self.engine.resume_count()
    }

    /// How many suspend/resume round trips the body has performed.
    pub fn suspend_count(&self) -> (r: u64)
        requires
            self.wf(),
        ensures
            self.engine.state is Completed || self.engine.state is Faulted ==> r
                == self.engine.resumes@.len() - 1,
            self.engine.state is Initial || self.engine.state is Suspended
                || self.engine.state is Cancelled ==> r == self.engine.resumes@.len(),
    {
        self.engine.suspend_count()
    }
}

} // verus!
