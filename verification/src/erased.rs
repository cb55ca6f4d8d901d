use vstd::prelude::*;

use crate::awaiter::{awaited_exhausted, awaited_ready, AwaiterMut, UnsafeAwaiter, UnsafeAwaiterMut};
use crate::op::{Op, Slot};

verus! {

/// The erasure-layer counterpart of [`UnsafeAwaiterMut`].
///
/// Blocking here crosses a unit-typed boundary: the call reports only
/// "done", and the operation's real, strongly typed value travels
/// through the write-once slot `out` that the caller placed beside the
/// call.  The slot is written at most once, by the ready poll, and the
/// caller reads it exactly once afterwards.
pub trait DynUnsafeAwaiterMut {
    /// The implementation's own well-formedness condition.
    spec fn dyn_inv(&self) -> bool;

    /// The most recent wake-up token, delivered by the latest resume.
    spec fn dyn_token_now(&self) -> u64;

    /// The tokens that future resumptions will deliver, oldest first.
    spec fn dyn_tokens_ahead(&self) -> Seq<u64>;

    /// How many times this side has suspended so far.
    spec fn dyn_suspensions(&self) -> int;

    /// Block on `op` through the unit-typed boundary; the caller
    /// guarantees that enough resumptions remain for readiness.
    fn dyn_unsafe_await_mut<V>(&mut self, op: &mut Op<V>, out: &mut Slot<V>) -> (r: Option<()>)
        requires
            old(self).dyn_inv(),
            old(op).wf(),
            !old(out).written,
            old(op).pends_left <= old(self).dyn_tokens_ahead().len(),
        ensures
            final(self).dyn_inv(),
            r is Some,
            final(out).val == old(op).val,
            final(out).written,
            awaited_ready(
                old(self).dyn_token_now(),
                old(self).dyn_tokens_ahead(),
                old(self).dyn_suspensions(),
                final(self).dyn_token_now(),
                final(self).dyn_tokens_ahead(),
                final(self).dyn_suspensions(),
                *old(op),
                *final(op),
            ),
    ;
}

/// The erasure-layer counterpart of [`AwaiterMut`]: blocking through the
/// unit-typed boundary, with the driver's giving up reported as `None`.
pub trait DynAwaiterMut: DynUnsafeAwaiterMut {
    /// Block on `op` through the unit-typed boundary: on `Some` the real
    /// value is in `out`; on `None` the driver stopped resuming first
    /// and the slot is untouched.
    fn dyn_await_mut<V>(&mut self, op: &mut Op<V>, out: &mut Slot<V>) -> (r: Option<()>)
        requires
            old(self).dyn_inv(),
            old(op).wf(),
            !old(out).written,
        ensures
            final(self).dyn_inv(),
            old(op).pends_left <= old(self).dyn_tokens_ahead().len() ==> r is Some
                && final(out).val == old(op).val && final(out).written && awaited_ready(
                old(self).dyn_token_now(),
                old(self).dyn_tokens_ahead(),
                old(self).dyn_suspensions(),
                final(self).dyn_token_now(),
                final(self).dyn_tokens_ahead(),
                final(self).dyn_suspensions(),
                *old(op),
                *final(op),
            ),
            old(op).pends_left > old(self).dyn_tokens_ahead().len() ==> r is None && *final(out)
                == *old(out) && awaited_exhausted(
                old(self).dyn_token_now(),
                old(self).dyn_tokens_ahead(),
                old(self).dyn_suspensions(),
                final(self).dyn_token_now(),
                final(self).dyn_tokens_ahead(),
                final(self).dyn_suspensions(),
                *old(op),
                *final(op),
            ),
    ;
}

/// The erasure-layer counterpart of [`UnsafeAwaiter`]: shared access,
/// so the caller guarantees the operation is already ready.
pub trait DynUnsafeAwaiter: DynUnsafeAwaiterMut {
    /// Deliver, through the slot, the value of an operation that needs
    /// no suspension.
    fn dyn_unsafe_await<V>(&self, op: &mut Op<V>, out: &mut Slot<V>)
        requires
            old(op).wf(),
            old(op).pends_left == 0,
            !old(out).written,
        ensures
            final(out).val == old(op).val,
            final(out).written,
            final(op).val is None,
            final(op).pends_left == 0,
            final(op).polled@ == old(op).polled@.push(self.dyn_token_now()),
    ;
}

/// The erasure-layer capability with shared access and no caller
/// obligation: one poll with the newest token, reporting `None` when the
/// operation would have to suspend, which shared access cannot do.
pub trait DynAwaiter: DynAwaiterMut + DynUnsafeAwaiter {
    /// Poll `op` once through the unit-typed boundary: on `Some` the
    /// real value is in `out`; on `None` the operation was not ready.
    fn dyn_await<V>(&self, op: &mut Op<V>, out: &mut Slot<V>) -> (r: Option<()>)
        requires
            old(op).wf(),
            !old(out).written,
        ensures
            final(op).polled@ == old(op).polled@.push(self.dyn_token_now()),
            old(op).pends_left == 0 ==> r is Some && final(out).val == old(op).val
                && final(out).written && final(op).val is None && final(op).pends_left == 0,
            old(op).pends_left > 0 ==> r is None && *final(out) == *old(out) && final(op).val
                == old(op).val && final(op).pends_left == old(op).pends_left - 1,
    ;
}

impl<T: UnsafeAwaiterMut> DynUnsafeAwaiterMut for T {
    open spec fn dyn_inv(&self) -> bool {
        self.inv()
    }

    open spec fn dyn_token_now(&self) -> u64 {
        self.token_now()
    }

    open spec fn dyn_tokens_ahead(&self) -> Seq<u64> {
        self.tokens_ahead()
    }

    open spec fn dyn_suspensions(&self) -> int {
        self.suspensions()
    }

    fn dyn_unsafe_await_mut<V>(&mut self, op: &mut Op<V>, out: &mut Slot<V>) -> (r: Option<()>) {
        match self.unsafe_await_mut(op) {
            Some(v) => {
                out.write(v);
                Some(())
            },
            None => None,
        }
    }
}

impl<T: AwaiterMut> DynAwaiterMut for T {
    fn dyn_await_mut<V>(&mut self, op: &mut Op<V>, out: &mut Slot<V>) -> (r: Option<()>) {
        match self.await_mut(op) {
            Some(v) => {
                out.write(v);
                Some(())
            },
            None => None,
        }
    }
}

impl<T: UnsafeAwaiter> DynUnsafeAwaiter for T {
    fn dyn_unsafe_await<V>(&self, op: &mut Op<V>, out: &mut Slot<V>) {
        let v = self.unsafe_await(op);
        out.write(v);
    }
}

impl<T: AwaiterMut + UnsafeAwaiter> DynAwaiter for T {
    fn dyn_await<V>(&self, op: &mut Op<V>, out: &mut Slot<V>) -> (r: Option<()>) {
        match op.poll(self.current_token()) {
            Some(v) => {
                out.write(v);
                Some(())
            },
            None => None,
        }
    }
}

} // verus!
