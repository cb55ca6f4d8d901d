use vstd::prelude::*;

use crate::op::{Op, Slot};

verus! {

/// The wake-up tokens an operation is polled with while blocked on:
/// first the current token `now`, then one freshly received token per
/// suspension, until the operation is ready (`p` tokens after `now`) or
/// the schedule `ahead` runs out (all of `ahead`).
pub open spec fn polls_of(now: u64, ahead: Seq<u64>, p: int) -> Seq<u64> {
    seq![now] + ahead.take(if p <= ahead.len() { p } else { ahead.len() as int })
}

/// The current token after `k` suspensions, starting from `now` with the
/// tokens `ahead` still to come.
pub open spec fn tok_after(now: u64, ahead: Seq<u64>, k: int) -> u64 {
    if k == 0 {
        now
    } else {
        ahead[k - 1]
    }
}

/// The awaiting adapter's effect on an operation that ran to readiness:
/// it was polled with the current token and then with each freshly
/// received one, its value was delivered, and the port advanced by one
/// suspension per not-ready report.
pub open spec fn awaited_ready<V>(
    now: u64,
    ahead: Seq<u64>,
    susp: int,
    now2: u64,
    ahead2: Seq<u64>,
    susp2: int,
    op0: Op<V>,
    op1: Op<V>,
) -> bool {
    let p = op0.pends_left as int;
    &&& op1.val is None
    &&& op1.pends_left == 0
    &&& op1.polled@ == op0.polled@ + polls_of(now, ahead, p)
    &&& ahead2 == ahead.skip(p)
    &&& now2 == tok_after(now, ahead, p)
    &&& susp2 == susp + p
}

/// The awaiting adapter's effect when every remaining resumption was
/// used up and the operation still reported not ready: its value stays
/// undelivered, and every token the driver had to give was consumed.
pub open spec fn awaited_exhausted<V>(
    now: u64,
    ahead: Seq<u64>,
    susp: int,
    now2: u64,
    ahead2: Seq<u64>,
    susp2: int,
    op0: Op<V>,
    op1: Op<V>,
) -> bool {
    let p = op0.pends_left as int;
    let q = ahead.len() as int;
    &&& op1.val == op0.val
    &&& op1.pends_left == p - q - 1
    &&& op1.polled@ == op0.polled@ + polls_of(now, ahead, p)
    &&& ahead2.len() == 0
    &&& now2 == tok_after(now, ahead, q)
    &&& susp2 == susp + q
}

/// Blocking on asynchronous operations where the caller must uphold the
/// adapter's obligations itself: the variant of [`AwaiterMut`] whose
/// safety condition — enough resumptions remain for the operation to
/// reach readiness — is a precondition on every call site instead of a
/// case the implementation handles.
pub trait UnsafeAwaiterMut {
    /// The implementation's own well-formedness condition.
    spec fn inv(&self) -> bool;

    /// The most recent wake-up token, delivered by the latest resume.
    spec fn token_now(&self) -> u64;

    /// The tokens that future resumptions will deliver, oldest first.
    spec fn tokens_ahead(&self) -> Seq<u64>;

    /// How many times this side has suspended so far.
    spec fn suspensions(&self) -> int;

    /// The most recent wake-up token, for building notification contexts.
    fn current_token(&self) -> (r: u64)
        ensures
            r == self.token_now(),
    ;

    /// Block on `op` until it is ready; the caller guarantees that the
    /// driver resumes often enough for readiness to be reached.
    fn unsafe_await_mut<V>(&mut self, op: &mut Op<V>) -> (r: Option<V>)
        requires
            old(self).inv(),
            old(op).wf(),
            old(op).pends_left <= old(self).tokens_ahead().len(),
        ensures
            final(self).inv(),
            r == old(op).val,
            awaited_ready(
                old(self).token_now(),
                old(self).tokens_ahead(),
                old(self).suspensions(),
                final(self).token_now(),
                final(self).tokens_ahead(),
                final(self).suspensions(),
                *old(op),
                *final(op),
            ),
    ;
}

/// Blocking on asynchronous operations with exclusive access to the
/// awaiter.  `await_mut` polls the operation with the newest wake-up
/// token, suspends on every not-ready report, and returns the value once
/// ready; if the driver stops resuming first, it reports `None` instead.
pub trait AwaiterMut: UnsafeAwaiterMut {
    /// Block on `op`: poll, suspend while not ready, return the value.
    fn await_mut<V>(&mut self, op: &mut Op<V>) -> (r: Option<V>)
        requires
            old(self).inv(),
            old(op).wf(),
        ensures
            final(self).inv(),
            old(op).pends_left <= old(self).tokens_ahead().len() ==> r == old(op).val
                && awaited_ready(
                old(self).token_now(),
                old(self).tokens_ahead(),
                old(self).suspensions(),
                final(self).token_now(),
                final(self).tokens_ahead(),
                final(self).suspensions(),
                *old(op),
                *final(op),
            ),
            old(op).pends_left > old(self).tokens_ahead().len() ==> r is None
                && awaited_exhausted(
                old(self).token_now(),
                old(self).tokens_ahead(),
                old(self).suspensions(),
                final(self).token_now(),
                final(self).tokens_ahead(),
                final(self).suspensions(),
                *old(op),
                *final(op),
            ),
    ;
}

/// Blocking with shared access to the awaiter.  A suspension must
/// advance the port, which shared access cannot do, so this capability
/// covers exactly the operations that are already ready; the caller
/// upholds that condition.
pub trait UnsafeAwaiter: UnsafeAwaiterMut {
    /// Deliver the value of an operation that needs no suspension.
    fn unsafe_await<V>(&self, op: &mut Op<V>) -> (r: V)
        requires
            old(op).wf(),
            old(op).pends_left == 0,
        ensures
            Some(r) == old(op).val,
            final(op).val is None,
            final(op).pends_left == 0,
            final(op).polled@ == old(op).polled@.push(self.token_now()),
    ;
}

/// The in-context side of the bridge: the resumption cell holding the
/// newest wake-up token, and the suspension port through which control
/// returns to the driver.
///
/// `cell` is the resumption cell: it always holds exactly one token, the
/// one from the most recent resumption, and is overwritten — never
/// merged — on every resume, since only the latest scheduler-provided
/// identity is valid for future notifications.  `sched` lists the tokens
/// the driver will hand to the suspensions still to come, and `next`
/// marks how many of them have been consumed.
pub struct Port {
    /// The resumption cell: the most recent wake-up token.
    pub cell: u64,
    /// The tokens of the resumptions the driver will perform, in order.
    pub sched: Vec<u64>,
    /// How many entries of `sched` have been consumed by suspensions.
    pub next: usize,
}

impl Port {
    /// A port whose first-entry token is `first` and whose driver will
    /// resume once per entry of `sched`.
    pub fn new(first: u64, sched: Vec<u64>) -> (r: Port)
        ensures
            r.inv(),
            r.token_now() == first,
            r.tokens_ahead() == sched@,
            r.suspensions() == 0,
    {
        let r = Port { cell: first, sched, next: 0 };
        proof {
            assert(r.tokens_ahead() =~= r.sched@);
        }
        r
    }

    /// Replace the resumption cell's token with the newest one and hand
    /// back the previous one.  The cell is overwritten, never merged:
    /// only the latest scheduler-provided identity is valid for future
    /// notifications.
    pub fn replace(&mut self, token: u64) -> (r: u64)
        ensures
            r == old(self).cell,
            final(self).cell == token,
            final(self).sched == old(self).sched,
            final(self).next == old(self).next,
    {
        let prev = self.cell;
        self.cell = token;
        prev
    }

    /// Give control back to the driver and report "not yet done"; when
    /// control returns, yield the token passed to that resumption, which
    /// replaces the cell's previous one.  `None` means the driver never
    /// resumes again: control does not come back.
    pub fn suspend(&mut self) -> (r: Option<u64>)
        requires
            old(self).inv(),
        ensures
            final(self).inv(),
            final(self).sched == old(self).sched,
            old(self).tokens_ahead().len() > 0 ==> {
                &&& r == Some(old(self).tokens_ahead()[0])
                &&& final(self).token_now() == old(self).tokens_ahead()[0]
                &&& final(self).tokens_ahead() == old(self).tokens_ahead().skip(1)
                &&& final(self).suspensions() == old(self).suspensions() + 1
            },
            old(self).tokens_ahead().len() == 0 ==> r is None && *final(self) == *old(self),
    {
        if self.next < self.sched.len() {
            let t = self.sched[self.next];
            self.replace(t);
            self.next = self.next + 1;
            proof {
                assert(self.tokens_ahead() =~= old(self).tokens_ahead().skip(1));
            }
            Some(t)
        } else {
            None
        }
    }

    /// The awaiting adapter: poll `op` with the newest token; while it
    /// reports not ready, suspend, replace the current token with the
    /// freshly received one, and poll again.  The ready value crosses the
    /// unit-typed boundary through the write-once slot `out`.
    #[verifier::loop_isolation(false)]
    pub fn drive<V>(&mut self, op: &mut Op<V>, out: &mut Slot<V>) -> (r: Option<()>)
        requires
            old(self).inv(),
            old(op).wf(),
            !old(out).written,
        ensures
            final(self).inv(),
            final(self).sched == old(self).sched,
            old(op).pends_left <= old(self).tokens_ahead().len() ==> {
                &&& r == Some(())
                &&& final(out).val == old(op).val
                &&& final(out).written
                &&& awaited_ready(
                    old(self).token_now(),
                    old(self).tokens_ahead(),
                    old(self).suspensions(),
                    final(self).token_now(),
                    final(self).tokens_ahead(),
                    final(self).suspensions(),
                    *old(op),
                    *final(op),
                )
            },
            old(op).pends_left > old(self).tokens_ahead().len() ==> {
                &&& r is None
                &&& *final(out) == *old(out)
                &&& awaited_exhausted(
                    old(self).token_now(),
                    old(self).tokens_ahead(),
                    old(self).suspensions(),
                    final(self).token_now(),
                    final(self).tokens_ahead(),
                    final(self).suspensions(),
                    *old(op),
                    *final(op),
                )
            },
    {
        let ghost now0 = self.cell;
        let ghost ahead0 = self.tokens_ahead();
        let ghost next0 = self.next as int;
        let ghost p0 = op.pends_left as int;
        let ghost polled0 = op.polled@;
        let ghost full = seq![now0] + ahead0;
        proof {
            assert(op.polled@ =~= polled0 + full.take(0));
        }
        loop
            invariant
                self.inv(),
                op.wf(),
                self.sched == old(self).sched,
                self.sched@.skip(next0) == ahead0,
                *out == *old(out),
                !out.written,
                op.val == old(op).val,
                next0 <= self.next,
                self.next - next0 == p0 - op.pends_left,
                self.next - next0 <= ahead0.len(),
                self.cell == full[self.next - next0],
                op.polled@ == polled0 + full.take(self.next - next0),
            decreases op.pends_left,
        {
            let ghost c = self.next - next0;
            match op.poll(self.cell) {
                Some(v) => {
                    out.write(v);
                    proof {
                        assert(op.polled@ =~= polled0 + polls_of(now0, ahead0, p0));
                        assert(self.tokens_ahead() =~= ahead0.skip(p0));
                    }
                    return Some(());
                },
                None => {
                    match self.suspend() {
                        Some(_) => {
                            proof {
                                assert(op.polled@ =~= polled0 + full.take(c + 1));
                            }
                        },
                        None => {
                            proof {
                                assert(c == ahead0.len());
                                assert(op.polled@ =~= polled0 + polls_of(now0, ahead0, p0));
                            }
                            return None;
                        },
                    }
                },
            }
        }
    }
}

impl UnsafeAwaiterMut for Port {
    open spec fn inv(&self) -> bool {
        self.next <= self.sched@.len()
    }

    open spec fn token_now(&self) -> u64 {
        self.cell
    }

    open spec fn tokens_ahead(&self) -> Seq<u64> {
        self.sched@.skip(self.next as int)
    }

    open spec fn suspensions(&self) -> int {
        self.next as int
    }

    fn current_token(&self) -> u64 {
        self.cell
    }

    fn unsafe_await_mut<V>(&mut self, op: &mut Op<V>) -> (r: Option<V>) {
        let mut out: Slot<V> = Slot::new();
        match self.drive(op, &mut out) {
            Some(_) => Some(out.take()),
            None => None,
        }
    }
}

impl AwaiterMut for Port {
    fn await_mut<V>(&mut self, op: &mut Op<V>) -> (r: Option<V>) {
        let mut out: Slot<V> = Slot::new();
        match self.drive(op, &mut out) {
            Some(_) => Some(out.take()),
            None => None,
        }
    }
}

impl UnsafeAwaiter for Port {
    fn unsafe_await<V>(&self, op: &mut Op<V>) -> (r: V) {
        op.poll(self.cell).unwrap()
    }
}

} // verus!
