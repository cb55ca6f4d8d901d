use vstd::prelude::*;

use crate::awaiter::{tok_after, AwaiterMut, UnsafeAwaiterMut};
use crate::op::Op;

verus! {

/// An asynchronous byte stream, as the blocking bridge observes it:
/// reads serve the next bytes of `data`, writes land in `sink`, and
/// every operation reports "not ready" `delay` times before completing.
pub struct ByteStream {
    /// The bytes the stream will serve to reads, in order.
    pub data: Vec<u8>,
    /// How many of them have been served already.
    pub pos: usize,
    /// The bytes accepted by completed writes, in order.
    pub sink: Vec<u8>,
    /// How many not-ready reports each operation makes before it is done.
    pub delay: u64,
    /// Whether the sink has been flushed since the last write.
    pub synced: bool,
}

impl ByteStream {
    pub open spec fn wf(&self) -> bool {
        self.pos <= self.data@.len()
    }

    /// A stream that serves `data` and pends `delay` times per call.
    pub fn new(data: Vec<u8>, delay: u64) -> (r: ByteStream)
        ensures
            r.wf(),
            r.data == data,
            r.pos == 0,
            r.sink@ == Seq::<u8>::empty(),
            r.delay == delay,
            r.synced,
    {
        ByteStream { data, pos: 0, sink: Vec::new(), delay, synced: true }
    }
}

/// The awaiter's state after a blocking call whose operation suspended
/// `d` times and then completed.
pub open spec fn port_advanced<T: UnsafeAwaiterMut>(t0: T, t1: T, d: int) -> bool {
    &&& t1.inv()
    &&& t1.tokens_ahead() == t0.tokens_ahead().skip(d)
    &&& t1.token_now() == tok_after(t0.token_now(), t0.tokens_ahead(), d)
    &&& t1.suspensions() == t0.suspensions() + d
}

/// The awaiter's state after a blocking call that used up the driver's
/// remaining resumptions without the operation completing.
pub open spec fn port_exhausted<T: UnsafeAwaiterMut>(t0: T, t1: T) -> bool {
    &&& t1.inv()
    &&& t1.tokens_ahead().len() == 0
    &&& t1.token_now() == tok_after(
        t0.token_now(),
        t0.tokens_ahead(),
        t0.tokens_ahead().len() as int,
    )
    &&& t1.suspensions() == t0.suspensions() + t0.tokens_ahead().len()
}

/// A blocking face over an asynchronous byte stream: an awaiter
/// combined with the stream it blocks on, so that plain synchronous
/// reads, writes and flushes drive the asynchronous operations
/// underneath.
pub struct Wrap<T, U> {
    /// The awaiter used to block on the asynchronous operations.
    pub wrapper: T,
    /// The wrapped asynchronous byte stream.
    pub wrapped: U,
}

impl<T: AwaiterMut> Wrap<T, ByteStream> {
    pub open spec fn wf(&self) -> bool {
        &&& self.wrapper.inv()
        &&& self.wrapped.wf()
    }

    /// How many bytes a read asking for `want` will serve.
    pub open spec fn read_len(&self, want: usize) -> int {
        if want <= self.wrapped.data@.len() - self.wrapped.pos {
            want as int
        } else {
            self.wrapped.data@.len() - self.wrapped.pos
        }
    }

    /// Read up to `want` bytes: block on the stream's next chunk, then
    /// consume it.  `None` means the driver stopped resuming before the
    /// operation completed; the stream is then left unconsumed.
    #[verifier::loop_isolation(false)]
    pub fn read(&mut self, want: usize) -> (r: Option<Vec<u8>>)
        requires
            old(self).wf(),
        ensures
            final(self).wf(),
            final(self).wrapped.data == old(self).wrapped.data,
            final(self).wrapped.sink == old(self).wrapped.sink,
            final(self).wrapped.delay == old(self).wrapped.delay,
            final(self).wrapped.synced == old(self).wrapped.synced,
            old(self).wrapped.delay <= old(self).wrapper.tokens_ahead().len() ==> ({
                let n = old(self).read_len(want);
                &&& (r matches Some(v) && v@ == old(self).wrapped.data@.subrange(
                    old(self).wrapped.pos as int,
                    old(self).wrapped.pos + n,
                ))
                &&& final(self).wrapped.pos == old(self).wrapped.pos + n
                &&& port_advanced(
                    old(self).wrapper,
                    final(self).wrapper,
                    old(self).wrapped.delay as int,
                )
            }),
            old(self).wrapped.delay > old(self).wrapper.tokens_ahead().len() ==> ({
                &&& r is None
                &&& final(self).wrapped.pos == old(self).wrapped.pos
                &&& port_exhausted(old(self).wrapper, final(self).wrapper)
            }),
    {
        let avail = self.wrapped.data.len() - self.wrapped.pos;
        let n = if want < avail {
            want
        } else {
            avail
        };
        let mut chunk: Vec<u8> = Vec::new();
        let mut i: usize = 0;
        while i < n
            invariant
                self == old(self),
                i <= n,
                n == old(self).read_len(want),
                self.wrapped.pos + n <= self.wrapped.data@.len(),
                chunk@ == self.wrapped.data@.subrange(
                    self.wrapped.pos as int,
                    self.wrapped.pos + i,
                ),
            decreases n - i,
        {
            chunk.push(self.wrapped.data[self.wrapped.pos + i]);
            i = i + 1;
            proof {
                assert(chunk@ =~= self.wrapped.data@.subrange(
                    self.wrapped.pos as int,
                    self.wrapped.pos + i,
                ));
            }
        }
        let mut op = Op::new(self.wrapped.delay, chunk);
        match self.wrapper.await_mut(&mut op) {
            Some(v) => {
                self.wrapped.pos = self.wrapped.pos + n;
                Some(v)
            },
            None => None,
        }
    }

    /// Write `buf`: block on the stream accepting it, then record it in
    /// the sink.  `None` means the driver stopped resuming before the
    /// operation completed; nothing is recorded then.
    pub fn write(&mut self, buf: &Vec<u8>) -> (r: Option<usize>)
        requires
            old(self).wf(),
        ensures
            final(self).wf(),
            final(self).wrapped.data == old(self).wrapped.data,
            final(self).wrapped.pos == old(self).wrapped.pos,
            final(self).wrapped.delay == old(self).wrapped.delay,
            old(self).wrapped.delay <= old(self).wrapper.tokens_ahead().len() ==> ({
                &&& r == Some(buf@.len() as usize)
                &&& final(self).wrapped.sink@ == old(self).wrapped.sink@ + buf@
                &&& !final(self).wrapped.synced
                &&& port_advanced(
                    old(self).wrapper,
                    final(self).wrapper,
                    old(self).wrapped.delay as int,
                )
            }),
            old(self).wrapped.delay > old(self).wrapper.tokens_ahead().len() ==> ({
                &&& r is None
                &&& final(self).wrapped.sink == old(self).wrapped.sink
                &&& final(self).wrapped.synced == old(self).wrapped.synced
                &&& port_exhausted(old(self).wrapper, final(self).wrapper)
            }),
    {
        let mut op = Op::new(self.wrapped.delay, buf.len());
        match self.wrapper.await_mut(&mut op) {
            Some(n) => {
                self.wrapped.sink.extend_from_slice(buf.as_slice());
                self.wrapped.synced = false;
                Some(n)
            },
            None => None,
        }
    }

    /// Flush the stream: block until every accepted write is synced.
    pub fn flush(&mut self) -> (r: Option<()>)
        requires
            old(self).wf(),
        ensures
            final(self).wf(),
            final(self).wrapped.data == old(self).wrapped.data,
            final(self).wrapped.pos == old(self).wrapped.pos,
            final(self).wrapped.sink == old(self).wrapped.sink,
            final(self).wrapped.delay == old(self).wrapped.delay,
            old(self).wrapped.delay <= old(self).wrapper.tokens_ahead().len() ==> ({
                &&& r is Some
                &&& final(self).wrapped.synced
                &&& port_advanced(
                    old(self).wrapper,
                    final(self).wrapper,
                    old(self).wrapped.delay as int,
                )
            }),
            old(self).wrapped.delay > old(self).wrapper.tokens_ahead().len() ==> ({
                &&& r is None
                &&& final(self).wrapped.synced == old(self).wrapped.synced
                &&& port_exhausted(old(self).wrapper, final(self).wrapper)
            }),
    {
        let mut op = Op::new(self.wrapped.delay, ());
        match self.wrapper.await_mut(&mut op) {
            Some(_) => {
                self.wrapped.synced = true;
                Some(())
            },
            None => None,
        }
    }
}

} // verus!
