use vstd::prelude::*;

use crate::adapter::CoroFuture;
use crate::engine::{fault_model, fresh_model, ops_model, Engine};
use crate::op::{Op, Slot};

verus! {

/// The least stack length, in bytes, a context is given: the safe
/// execute capabilities round any smaller request up to it.
pub const MIN_STACK: u64 = 16384;

/// A stack provider: on demand it produces a fresh stack resource,
/// measured here by its length in bytes, whose ownership passes to the
/// alternate context for the duration of one execution.
pub trait UPS {
    /// The length of the stack this provider produces.
    spec fn stack_len_spec(&self) -> u64;

    /// Produce a fresh stack resource.
    fn provide(&self) -> (r: u64)
        ensures
            r == self.stack_len_spec(),
    ;
}

/// A provider that always produces a stack of one fixed length.
pub struct FixedStack {
    /// The length of every stack this provider produces.
    pub len: u64,
}

impl UPS for FixedStack {
    open spec fn stack_len_spec(&self) -> u64 {
        self.len
    }

    fn provide(&self) -> u64 {
        self.len
    }
}

/// A stack length rounded up to the safe floor.
pub open spec fn clamped(len: u64) -> u64 {
    if len < MIN_STACK {
        MIN_STACK
    } else {
        len
    }
}

/// What every execute capability returns: a future adapter owning a
/// fresh alternate context for the given body, with the given stack.
pub open spec fn fresh_exec<V>(
    ops: Seq<Op<V>>,
    fault_at: Option<usize>,
    stack_len: u64,
    r: CoroFuture<V>,
) -> bool {
    &&& r.wf()
    &&& r.engine.state is Initial
    &&& r.stack_len == stack_len
    &&& r.engine.model() == fresh_model(ops_model(ops), fault_model(fault_at))
}

/// The body's operations are all still undelivered.
pub open spec fn ops_wf<V>(ops: Seq<Op<V>>) -> bool {
    forall|i: int| 0 <= i < ops.len() ==> (#[trigger] ops[i]).wf()
}

/// Executing a blocking-style body with exclusive access to the
/// provider and, inside the context, exclusive access to the awaiter —
/// with the safety condition left to the caller: the provider's stack
/// must already reach the safe floor, and is used exactly as provided.
pub trait UnsafeCoroutineMutSelfMut: Sized {
    /// The length of the stack resource an execution will own.
    spec fn stack_len_spec(&self) -> u64;

    /// Start `ops` on a fresh alternate context, trusting the stack.
    fn unsafe_exec_mut_self_mut<V>(&mut self, ops: Vec<Op<V>>, fault_at: Option<usize>) -> (r:
        CoroFuture<V>)
        requires
            ops_wf(ops@),
            MIN_STACK <= old(self).stack_len_spec(),
        ensures
            *final(self) == *old(self),
            fresh_exec(ops@, fault_at, old(self).stack_len_spec(), r),
    ;
}

/// The safe form of [`UnsafeCoroutineMutSelfMut`]: instead of trusting
/// the caller, a stack below the safe floor is rounded up to it.
pub trait CoroutineMutSelfMut: UnsafeCoroutineMutSelfMut {
    /// Start `ops` on a fresh alternate context.
    fn exec_mut_self_mut<V>(&mut self, ops: Vec<Op<V>>, fault_at: Option<usize>) -> (r:
        CoroFuture<V>)
        requires
            ops_wf(ops@),
        ensures
            *final(self) == *old(self),
            fresh_exec(ops@, fault_at, clamped(old(self).stack_len_spec()), r),
    ;
}

/// As [`UnsafeCoroutineMutSelfMut`], but the context grants the body
/// only shared access to the awaiter.
pub trait UnsafeCoroutineSelfMut: UnsafeCoroutineMutSelfMut {
    /// Start `ops` on a fresh alternate context, trusting the stack.
    fn unsafe_exec_self_mut<V>(&mut self, ops: Vec<Op<V>>, fault_at: Option<usize>) -> (r:
        CoroFuture<V>)
        requires
            ops_wf(ops@),
            MIN_STACK <= old(self).stack_len_spec(),
        ensures
            *final(self) == *old(self),
            fresh_exec(ops@, fault_at, old(self).stack_len_spec(), r),
    ;
}

/// The safe form of [`UnsafeCoroutineSelfMut`].
pub trait CoroutineSelfMut: UnsafeCoroutineSelfMut + CoroutineMutSelfMut {
    /// Start `ops` on a fresh alternate context.
    fn exec_self_mut<V>(&mut self, ops: Vec<Op<V>>, fault_at: Option<usize>) -> (r: CoroFuture<V>)
        requires
            ops_wf(ops@),
        ensures
            *final(self) == *old(self),
            fresh_exec(ops@, fault_at, clamped(old(self).stack_len_spec()), r),
    ;
}

/// As [`UnsafeCoroutineMutSelfMut`], with shared access to the
/// provider: executions can be started concurrently from one provider.
pub trait UnsafeCoroutineMut: UnsafeCoroutineMutSelfMut {
    /// Start `ops` on a fresh alternate context, trusting the stack.
    fn unsafe_exec_mut<V>(&self, ops: Vec<Op<V>>, fault_at: Option<usize>) -> (r: CoroFuture<V>)
        requires
            ops_wf(ops@),
            MIN_STACK <= self.stack_len_spec(),
        ensures
            fresh_exec(ops@, fault_at, self.stack_len_spec(), r),
    ;
}

/// The safe form of [`UnsafeCoroutineMut`].
pub trait CoroutineMut: UnsafeCoroutineMut + CoroutineMutSelfMut {
    /// Start `ops` on a fresh alternate context.
    fn exec_mut<V>(&self, ops: Vec<Op<V>>, fault_at: Option<usize>) -> (r: CoroFuture<V>)
        requires
            ops_wf(ops@),
        ensures
            fresh_exec(ops@, fault_at, clamped(self.stack_len_spec()), r),
    ;
}

/// As [`UnsafeCoroutineMut`], but the context grants the body only
/// shared access to the awaiter.
pub trait UnsafeCoroutine: UnsafeCoroutineMut + UnsafeCoroutineSelfMut {
    /// Start `ops` on a fresh alternate context, trusting the stack.
    fn unsafe_exec<V>(&self, ops: Vec<Op<V>>, fault_at: Option<usize>) -> (r: CoroFuture<V>)
        requires
            ops_wf(ops@),
            MIN_STACK <= self.stack_len_spec(),
        ensures
            fresh_exec(ops@, fault_at, self.stack_len_spec(), r),
    ;
}

/// The primary execute capability: shared access to the provider, a
/// fresh alternate context per call, and the safe stack floor.  The
/// body blocks on its operations in program order; the returned future
/// adapter drives it one suspension at a time.
pub trait Coroutine: UnsafeCoroutine + CoroutineMut + CoroutineSelfMut {
    /// Start `ops` on a fresh alternate context.
    fn exec<V>(&self, ops: Vec<Op<V>>, fault_at: Option<usize>) -> (r: CoroFuture<V>)
        requires
            ops_wf(ops@),
        ensures
            fresh_exec(ops@, fault_at, clamped(self.stack_len_spec()), r),
    ;
}

/// A coroutine provider: each execution gets a fresh alternate context
/// whose stack comes from `via`.
pub struct Stacc<P> {
    /// The stack provider backing every execution.
    pub via: P,
}

impl<P: UPS> UnsafeCoroutineMutSelfMut for Stacc<P> {
    open spec fn stack_len_spec(&self) -> u64 {
        self.via.stack_len_spec()
    }

    fn unsafe_exec_mut_self_mut<V>(&mut self, ops: Vec<Op<V>>, fault_at: Option<usize>) -> (r:
        CoroFuture<V>) {
        self.exec_mut_self_mut(ops, fault_at)
    }
}

impl<P: UPS> CoroutineMutSelfMut for Stacc<P> {
    fn exec_mut_self_mut<V>(&mut self, ops: Vec<Op<V>>, fault_at: Option<usize>) -> (r:
        CoroFuture<V>) {
        self.exec_mut(ops, fault_at)
    }
}

impl<P: UPS> UnsafeCoroutineSelfMut for Stacc<P> {
    fn unsafe_exec_self_mut<V>(&mut self, ops: Vec<Op<V>>, fault_at: Option<usize>) -> (r:
        CoroFuture<V>) {
        self.exec_self_mut(ops, fault_at)
    }
}

impl<P: UPS> CoroutineSelfMut for Stacc<P> {
    fn exec_self_mut<V>(&mut self, ops: Vec<Op<V>>, fault_at: Option<usize>) -> (r: CoroFuture<
        V,
    >) {
        self.exec(ops, fault_at)
    }
}

impl<P: UPS> UnsafeCoroutineMut for Stacc<P> {
    fn unsafe_exec_mut<V>(&self, ops: Vec<Op<V>>, fault_at: Option<usize>) -> (r: CoroFuture<V>) {
        self.exec_mut(ops, fault_at)
    }
}

impl<P: UPS> CoroutineMut for Stacc<P> {
    fn exec_mut<V>(&self, ops: Vec<Op<V>>, fault_at: Option<usize>) -> (r: CoroFuture<V>) {
        self.exec(ops, fault_at)
    }
}

impl<P: UPS> UnsafeCoroutine for Stacc<P> {
    fn unsafe_exec<V>(&self, ops: Vec<Op<V>>, fault_at: Option<usize>) -> (r: CoroFuture<V>) {
        self.exec(ops, fault_at)
    }
}

impl<P: UPS> Coroutine for Stacc<P> {
    fn exec<V>(&self, ops: Vec<Op<V>>, fault_at: Option<usize>) -> (r: CoroFuture<V>) {
        let want = self.via.provide();
        let len = if want < MIN_STACK {
            MIN_STACK
        } else {
            want
        };
        CoroFuture { engine: Engine::new(ops, fault_at), slot: Slot::new(), stack_len: len }
    }
}

} // verus!
