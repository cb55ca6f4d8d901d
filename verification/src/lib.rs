//! Traits and types for blocking on asynchronous operations from
//! synchronous code, with the suspend/resume bridge stated and proved.
//!
//! Synchronous code runs on an alternate execution context; whenever it
//! must wait on an asynchronous operation it suspends, handing control
//! back to the host scheduler together with "not ready yet", and resumes
//! at the same point once the scheduler drives it again.  The library
//! models the bridge as explicit state: the resumption cell holding the
//! newest wake-up token, the suspension port, the awaiting adapter that
//! polls and suspends, the alternate-context engine with its
//! initial/suspended/completed life cycle, the poll-based future adapter,
//! and the erasure layer that funnels a typed result through a unit-typed
//! boundary via a write-once slot.

pub mod op;
pub mod awaiter;
pub mod erased;
pub mod engine;
pub mod adapter;
pub mod coroutine;
pub mod io;
pub mod laws;

pub use awaiter::{AwaiterMut, Port, UnsafeAwaiter, UnsafeAwaiterMut};
pub use coroutine::{
    Coroutine, CoroutineMut, CoroutineMutSelfMut, CoroutineSelfMut, Stacc, UnsafeCoroutine,
    UnsafeCoroutineMut, UnsafeCoroutineMutSelfMut, UnsafeCoroutineSelfMut, UPS,
};
