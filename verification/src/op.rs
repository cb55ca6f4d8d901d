use vstd::prelude::*;

verus! {

/// Write-once storage: written at most once, read at most once.
///
/// The slot enforces a strict producer/consumer handoff.  `write`
/// demands that nothing was written before, and `take` hands the value
/// out exactly once; after a `take` the slot stays marked as written,
/// so it can never be filled a second time.
pub struct Slot<V> {
    /// The stored value, present between the write and the read.
    pub val: Option<V>,
    /// Whether the slot has ever been written.
    pub written: bool,
}

impl<V> Slot<V> {
    /// A slot holds a value exactly when one was written and not yet read.
    pub open spec fn full(&self) -> bool {
        self.val is Some
    }

    pub fn new() -> (r: Slot<V>)
        ensures
            r.val is None,
            !r.written,
    {
        Slot { val: None, written: false }
    }

    /// Store the value; allowed only on a slot never written before.
    pub fn write(&mut self, v: V)
        requires
            !old(self).written,
        ensures
            final(self).val == Some(v),
            final(self).written,
    {
        self.val = Some(v);
        self.written = true;
    }

    /// Move the value out; allowed only while the slot is full.
    pub fn take(&mut self) -> (r: V)
        requires
            old(self).full(),
        ensures
            Some(r) == old(self).val,
            final(self).val is None,
            final(self).written == old(self).written,
    {
        self.val.take().unwrap()
    }
}

/// One awaited asynchronous operation.
///
/// The model records everything the bridge can observe of an operation:
/// how many times it still reports "not ready", the value it produces
/// once ready, and the wake-up tokens it has been polled with, in order.
pub struct Op<V> {
    /// How many polls still report "not ready" before the value comes.
    pub pends_left: u64,
    /// The result; present until the ready poll delivers it.
    pub val: Option<V>,
    /// Every token this operation has been polled with, oldest first.
    pub polled: Vec<u64>,
}

impl<V> Op<V> {
    /// An operation is live while its result has not been delivered.
    pub open spec fn wf(&self) -> bool {
        self.val is Some
    }

    pub fn new(pends: u64, v: V) -> (r: Op<V>)
        ensures
            r.pends_left == pends,
            r.val == Some(v),
            r.polled@ == Seq::<u64>::empty(),
    {
        Op { pends_left: pends, val: Some(v), polled: Vec::new() }
    }

    /// One poll with the given wake-up token.
    ///
    /// The operation is ready exactly when no "not ready" reports are
    /// left; the ready poll moves the value out.  Every poll records its
    /// token, so contracts can speak of which token reached the
    /// operation at each step.
    pub fn poll(&mut self, token: u64) -> (r: Option<V>)
        requires
            old(self).wf(),
        ensures
            final(self).polled@ == old(self).polled@.push(token),
            old(self).pends_left == 0 ==> r == old(self).val && final(self).val is None
                && final(self).pends_left == 0,
            old(self).pends_left > 0 ==> r is None && final(self).val == old(self).val
                && final(self).pends_left == old(self).pends_left - 1,
    {
        self.polled.push(token);
        if self.pends_left == 0 {
            self.val.take()
        } else {
            self.pends_left = self.pends_left - 1;
            None
        }
    }
}

} // verus!
