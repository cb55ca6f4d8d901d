use vstd::prelude::*;

use crate::op::Op;

verus! {

/// The life cycle of an alternate execution context.
#[derive(Clone, Copy, PartialEq, Eq, Structural, Debug)]
pub enum EngineState {
    /// Created, never resumed; the body has not started.
    Initial,
    /// The body gave control back mid-way and waits to be resumed.
    Suspended,
    /// The body ran to its end; its results are complete.  Terminal.
    Completed,
    /// The body faulted; the context unwound before a normal
    /// completion.  Terminal.
    Faulted,
    /// The owner released the context mid-wait; its pending cleanup has
    /// run.  Terminal.
    Cancelled,
}

/// What one resumption of the alternate context reports to the driver.
#[derive(Clone, Copy, PartialEq, Eq, Structural, Debug)]
pub enum ResumeOutcome {
    /// The body reached a suspension point: not yet done.
    Suspended,
    /// The body ran to its end; the results are ready to be taken.
    Completed,
    /// The body faulted; the context unwound its pending cleanup.
    Faulted,
}

/// The mathematical state of one awaited operation.
#[verifier::ext_equal]
pub ghost struct OpModel<V> {
    pub pends: u64,
    pub val: Option<V>,
    pub polled: Seq<u64>,
}

/// The mathematical state of an alternate-context engine.
#[verifier::ext_equal]
pub ghost struct EngineModel<V> {
    pub state: EngineState,
    pub ops: Seq<OpModel<V>>,
    pub at: int,
    pub done: Seq<V>,
    pub cell: u64,
    pub resumes: Seq<u64>,
    pub fault_at: Option<int>,
    pub acquired: int,
    pub released: int,
}

/// One entry of the alternate context, after the resumption cell was
/// refreshed with `t`: run the body forward.  Each operation the body
/// is blocked on is polled once with `t`; every operation that is ready
/// delivers its value, in program order, and the body runs on to the
/// next one.  The entry ends at the first operation that still reports
/// not ready (suspended), at the body's fault point (the alternate
/// stack unwinds, releasing its scoped resources), or at the body's end
/// (completed, likewise closing every scope).
pub open spec fn advance<V>(m: EngineModel<V>, t: u64) -> EngineModel<V>
    decreases m.ops.len() - m.at,
{
    if m.fault_at == Some(m.at) {
        EngineModel { state: EngineState::Faulted, released: m.acquired, ..m }
    } else if !(0 <= m.at < m.ops.len()) {
        EngineModel { state: EngineState::Completed, released: m.acquired, ..m }
    } else {
        let op = m.ops[m.at];
        if op.pends == 0 {
            advance(
                EngineModel {
                    ops: m.ops.update(
                        m.at,
                        OpModel { val: None, polled: op.polled.push(t), ..op },
                    ),
                    at: m.at + 1,
                    done: m.done.push(op.val.unwrap()),
                    ..m
                },
                t,
            )
        } else {
            EngineModel {
                state: EngineState::Suspended,
                ops: m.ops.update(
                    m.at,
                    OpModel { pends: (op.pends - 1) as u64, polled: op.polled.push(t), ..op },
                ),
                ..m
            }
        }
    }
}

/// One resumption: the newest token replaces the cell's previous one,
/// the resumption is logged, the body's scope opens on the very first
/// entry, and the body runs forward as [`advance`] describes.
pub open spec fn resume_step<V>(m: EngineModel<V>, t: u64) -> EngineModel<V> {
    advance(
        EngineModel {
            cell: t,
            resumes: m.resumes.push(t),
            acquired: if m.state is Initial {
                m.acquired + 1
            } else {
                m.acquired
            },
            ..m
        },
        t,
    )
}

/// The model of a fault position.
pub open spec fn fault_model(f: Option<usize>) -> Option<int> {
    match f {
        Some(i) => Some(i as int),
        None => None,
    }
}

/// The models of a list of operations.
pub open spec fn ops_model<V>(ops: Seq<Op<V>>) -> Seq<OpModel<V>> {
    ops.map_values(|o: Op<V>| o.model())
}

/// The model of a context that was never resumed.
pub open spec fn fresh_model<V>(ops: Seq<OpModel<V>>, fault_at: Option<int>) -> EngineModel<V> {
    EngineModel {
        state: EngineState::Initial,
        ops,
        at: 0,
        done: Seq::<V>::empty(),
        cell: 0,
        resumes: Seq::<u64>::empty(),
        fault_at,
        acquired: 0,
        released: 0,
    }
}

/// A whole run: resume once per token, oldest first.
pub open spec fn drive_model<V>(m: EngineModel<V>, toks: Seq<u64>) -> EngineModel<V>
    decreases toks.len(),
{
    if toks.len() == 0 {
        m
    } else {
        drive_model(resume_step(m, toks[0]), toks.skip(1))
    }
}

impl<V> Op<V> {
    /// The mathematical state of this operation.
    pub open spec fn model(&self) -> OpModel<V> {
        OpModel { pends: self.pends_left, val: self.val, polled: self.polled@ }
    }
}

/// The alternate-context engine: owns one alternate execution context
/// running a blocking-style body, modeled as the ordered list of
/// asynchronous operations the body blocks on.
///
/// `resume` transfers control into the context, carrying the newest
/// wake-up token, and reports back "still suspended", "completed" or
/// "faulted"; resuming a terminal context is a contract violation and
/// is unreachable by precondition.  The body's scope stands for the
/// resources live on the alternate stack: it is acquired on first
/// entry and must be released exactly once, by completion, by a fault's
/// unwind, or by cancellation.
pub struct Engine<V> {
    /// Where the context stands in its life cycle.
    pub state: EngineState,
    /// The body: the operations it blocks on, in program order.
    pub ops: Vec<Op<V>>,
    /// The first operation the body has not yet finished waiting on.
    pub at: usize,
    /// The values delivered so far, in program order.
    pub done: Vec<V>,
    /// The resumption cell: the newest wake-up token.
    pub cell: u64,
    /// Every token ever passed to `resume`, oldest first.
    pub resumes: Vec<u64>,
    /// The program position at which the body faults, if any: reaching
    /// it unwinds the context instead of blocking on the next operation.
    pub fault_at: Option<usize>,
    /// How many scoped resources the body has acquired (0 or 1).
    pub acquired: u64,
    /// How many of them have been released again.
    pub released: u64,
}

impl<V> Engine<V> {
    /// The mathematical state of this engine.
    pub open spec fn model(&self) -> EngineModel<V> {
        EngineModel {
            state: self.state,
            ops: ops_model(self.ops@),
            at: self.at as int,
            done: self.done@,
            cell: self.cell,
            resumes: self.resumes@,
            fault_at: fault_model(self.fault_at),
            acquired: self.acquired as int,
            released: self.released as int,
        }
    }

    /// The engine's internal invariant.
    pub open spec fn wf(&self) -> bool {
        &&& self.at <= self.ops@.len()
        &&& self.acquired <= 1
        &&& self.released <= self.acquired
        &&& (forall|i: int|
            self.at <= i < self.ops@.len() ==> (#[trigger] self.ops@[i]).wf())
        &&& (forall|i: int| 0 <= i < self.at ==> (#[trigger] self.ops@[i]).val is None)
        &&& (self.state is Initial ==> self.at == 0 && self.acquired == 0
            && self.resumes@.len() == 0)
        &&& (!(self.state is Initial) ==> self.acquired == 1 && self.resumes@.len() >= 1)
        &&& (self.state is Suspended ==> self.released == 0)
        &&& (self.state is Completed ==> self.released == 1 && self.at == self.ops@.len())
        &&& (self.state is Faulted ==> self.released == 1)
        &&& (self.state is Cancelled ==> self.released == 1)
    }

    /// Whether the context may still be resumed.
    pub open spec fn resumable(&self) -> bool {
        self.state is Initial || self.state is Suspended
    }

    /// A fresh context that will block on `ops` in order and, if
    /// `fault_at` is set, fault upon reaching that program position.
    pub fn new(ops: Vec<Op<V>>, fault_at: Option<usize>) -> (r: Engine<V>)
        requires
            forall|i: int| 0 <= i < ops@.len() ==> (#[trigger] ops@[i]).wf(),
        ensures
            r.wf(),
            r.state is Initial,
            r.model() == fresh_model(ops_model(ops@), fault_model(fault_at)),
    {
        Engine {
            state: EngineState::Initial,
            ops,
            at: 0,
            done: Vec::new(),
            cell: 0,
            resumes: Vec::new(),
            fault_at,
            acquired: 0,
            released: 0,
        }
    }

    /// Transfer control into the alternate context, handing it `token`.
    ///
    /// The outcome mirrors the state the context is left in, and the
    /// whole effect is [`resume_step`] of the engine's model.  Exactly
    /// one unit of forward progress is made: the body either reaches its
    /// next suspension point, its fault point, or its end.
    #[verifier::loop_isolation(false)]
    pub fn resume(&mut self, token: u64) -> (r: ResumeOutcome)
        requires
            old(self).wf(),
            old(self).resumable(),
        ensures
            final(self).wf(),
            final(self).model() == resume_step(old(self).model(), token),
            r is Suspended <==> final(self).state is Suspended,
            r is Completed <==> final(self).state is Completed,
            r is Faulted <==> final(self).state is Faulted,
            final(self).resumes@ == old(self).resumes@.push(token),
            final(self).cell == token,
    {
        if self.state == EngineState::Initial {
            self.acquired = self.acquired + 1;
        }
        self.cell = token;
        self.resumes.push(token);
        let ghost target = resume_step(old(self).model(), token);
        proof {
            assert(self.model() =~= (EngineModel {
                cell: token,
                resumes: old(self).model().resumes.push(token),
                acquired: if old(self).model().state is Initial {
                    old(self).model().acquired + 1
                } else {
                    old(self).model().acquired
                },
                ..old(self).model()
            }));
        }
        loop
            invariant
                self.at <= self.ops@.len(),
                forall|i: int| self.at <= i < self.ops@.len() ==> (#[trigger] self.ops@[i]).wf(),
                forall|i: int| 0 <= i < self.at ==> (#[trigger] self.ops@[i]).val is None,
                self.acquired == 1,
                self.released == 0,
                self.cell == token,
                self.fault_at == old(self).fault_at,
                self.resumes@ == old(self).resumes@.push(token),
                advance(self.model(), token) == target,
            decreases self.ops@.len() - self.at,
        {
            let fault_now = match self.fault_at {
                Some(f) => f == self.at,
                None => false,
            };
            if fault_now {
                self.released = self.acquired;
                self.state = EngineState::Faulted;
                proof {
                    assert(final(self).model() =~= target);
                }
                return ResumeOutcome::Faulted;
            }
            if self.at == self.ops.len() {
                self.released = self.acquired;
                self.state = EngineState::Completed;
                proof {
                    assert(final(self).model() =~= target);
                }
                return ResumeOutcome::Completed;
            }
            let ghost pre = self.model();
            let op = op_at(&mut self.ops, self.at);
            match op.poll(token) {
                Some(v) => {
                    self.done.push(v);
                    self.at = self.at + 1;
                    proof {
                        let opm = pre.ops[pre.at];
                        assert(self.model().ops =~= pre.ops.update(
                            pre.at,
                            OpModel { val: None, polled: opm.polled.push(token), ..opm },
                        ));
                        assert(self.model() =~= (EngineModel {
                            ops: pre.ops.update(
                                pre.at,
                                OpModel { val: None, polled: opm.polled.push(token), ..opm },
                            ),
                            at: pre.at + 1,
                            done: pre.done.push(opm.val.unwrap()),
                            ..pre
                        }));
                    }
                },
                None => {
                    self.state = EngineState::Suspended;
                    proof {
                        let opm = pre.ops[pre.at];
                        assert(final(self).model().ops =~= pre.ops.update(
                            pre.at,
                            OpModel {
                                pends: (opm.pends - 1) as u64,
                                polled: opm.polled.push(token),
                                ..opm
                            },
                        ));
                        assert(final(self).model() =~= (EngineModel {
                            state: EngineState::Suspended,
                            ops: pre.ops.update(
                                pre.at,
                                OpModel {
                                    pends: (opm.pends - 1) as u64,
                                    polled: opm.polled.push(token),
                                    ..opm
                                },
                            ),
                            ..pre
                        }));
                    }
                    return ResumeOutcome::Suspended;
                },
            }
        }
    }

    /// Release the alternate context without resuming it further: the
    /// cleanup still pending on its stack runs — exactly once per
    /// acquisition, and never again on a context already terminal.  A
    /// context never entered has nothing to clean up and is untouched.
    pub fn cancel(&mut self)
        requires
            old(self).wf(),
        ensures
            final(self).wf(),
            final(self).released == final(self).acquired,
            final(self).acquired == old(self).acquired,
            old(self).state is Suspended ==> final(self).state is Cancelled
                && final(self).released == old(self).released + 1,
            !(old(self).state is Suspended) ==> *final(self) == *old(self),
    {
        if self.state == EngineState::Suspended {
            self.released = self.acquired;
            self.state = EngineState::Cancelled;
        }
    }

    /// How many times the context has been resumed.
    pub fn resume_count(&self) -> (r: u64)
        ensures
            r == self.resumes@.len(),
    {
        self.resumes.len() as u64
    }

    /// How many suspend/resume round trips the body has performed: every
    /// resumption answers with a suspension, except the one that runs
    /// the body to its end or to its fault point.
    pub fn suspend_count(&self) -> (r: u64)
        requires
            self.wf(),
        ensures
            self.state is Completed || self.state is Faulted ==> r == self.resumes@.len() - 1,
            self.state is Initial || self.state is Suspended || self.state is Cancelled ==> r
                == self.resumes@.len(),
    {
        match self.state {
            EngineState::Completed | EngineState::Faulted => self.resumes.len() as u64 - 1,
            _ => self.resumes.len() as u64,
        }
    }
}

/// A mutable borrow of one element of a vector.
fn op_at<V>(ops: &mut Vec<Op<V>>, i: usize) -> (op: &mut Op<V>)
    requires
        i < old(ops)@.len(),
    ensures
        *op == old(ops)@[i as int],
        final(ops)@ == old(ops)@.update(i as int, *final(op)),
{
    &mut ops[i]
}

} // verus!
