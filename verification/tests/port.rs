use awaiter_trait::awaiter::{AwaiterMut, Port, UnsafeAwaiter, UnsafeAwaiterMut};
use awaiter_trait::erased::{DynAwaiter, DynAwaiterMut, DynUnsafeAwaiter, DynUnsafeAwaiterMut};
use awaiter_trait::op::{Op, Slot};

#[test]
fn ready_op_never_suspends() {
    let mut port = Port::new(7, vec![]);
    let mut op: Op<u64> = Op::new(0, 42);
    let r = port.await_mut(&mut op);
    assert_eq!(r, Some(42));
    assert_eq!(op.polled, vec![7]);
    assert_eq!(op.val, None);
    assert_eq!(port.next, 0);
    assert_eq!(port.cell, 7);
}

#[test]
fn pending_op_exact_round_trips() {
    let mut port = Port::new(5, vec![1, 2, 3]);
    let mut op: Op<u64> = Op::new(3, 9);
    let r = port.await_mut(&mut op);
    assert_eq!(r, Some(9));
    assert_eq!(op.polled, vec![5, 1, 2, 3]);
    assert_eq!(port.next, 3);
    assert_eq!(port.cell, 3);
}

#[test]
fn exhausted_schedule_reports_none() {
    let mut port = Port::new(4, vec![1, 2]);
    let mut op: Op<u64> = Op::new(5, 1);
    let r = port.await_mut(&mut op);
    assert_eq!(r, None);
    assert_eq!(op.pends_left, 2);
    assert_eq!(op.val, Some(1));
    assert_eq!(op.polled, vec![4, 1, 2]);
    assert_eq!(port.next, 2);
}

#[test]
fn suspend_yields_next_token() {
    let mut port = Port::new(10, vec![20, 30]);
    assert_eq!(port.suspend(), Some(20));
    assert_eq!(port.cell, 20);
    assert_eq!(port.suspend(), Some(30));
    assert_eq!(port.cell, 30);
    assert_eq!(port.suspend(), None);
    assert_eq!(port.cell, 30);
}

#[test]
fn current_token_reads_the_cell() {
    let port = Port::new(17, vec![]);
    assert_eq!(port.current_token(), 17);
}

#[test]
fn replace_overwrites_and_returns_the_old_token() {
    let mut port = Port::new(17, vec![]);
    assert_eq!(port.replace(40), 17);
    assert_eq!(port.cell, 40);
    assert_eq!(port.replace(41), 40);
    assert_eq!(port.cell, 41);
}

#[test]
fn unsafe_await_delivers_ready_value() {
    let port = Port::new(6, vec![]);
    let mut op: Op<&str> = Op::new(0, "done");
    let r = port.unsafe_await(&mut op);
    assert_eq!(r, "done");
    assert_eq!(op.polled, vec![6]);
    assert_eq!(op.val, None);
}

#[test]
fn unsafe_await_mut_matches_await_mut() {
    let mut port = Port::new(8, vec![11]);
    let mut op: Op<u64> = Op::new(1, 77);
    let r = port.unsafe_await_mut(&mut op);
    assert_eq!(r, Some(77));
    assert_eq!(op.polled, vec![8, 11]);
    assert_eq!(port.next, 1);
}

#[test]
fn dyn_await_mut_funnels_value_through_slot() {
    let mut port = Port::new(2, vec![4]);
    let mut op: Op<u64> = Op::new(1, 13);
    let mut out: Slot<u64> = Slot::new();
    let r = port.dyn_await_mut(&mut op, &mut out);
    assert_eq!(r, Some(()));
    assert!(out.written);
    assert_eq!(out.take(), 13);
    assert_eq!(out.val, None);
}

#[test]
fn dyn_await_mut_leaves_slot_on_exhaustion() {
    let mut port = Port::new(2, vec![]);
    let mut op: Op<u64> = Op::new(3, 13);
    let mut out: Slot<u64> = Slot::new();
    let r = port.dyn_await_mut(&mut op, &mut out);
    assert_eq!(r, None);
    assert!(!out.written);
    assert_eq!(out.val, None);
}

#[test]
fn dyn_unsafe_await_mut_requires_enough_resumes() {
    let mut port = Port::new(1, vec![2, 3]);
    let mut op: Op<u64> = Op::new(2, 5);
    let mut out: Slot<u64> = Slot::new();
    let r = port.dyn_unsafe_await_mut(&mut op, &mut out);
    assert_eq!(r, Some(()));
    assert_eq!(out.take(), 5);
}

#[test]
fn dyn_unsafe_await_writes_slot() {
    let port = Port::new(3, vec![]);
    let mut op: Op<u64> = Op::new(0, 21);
    let mut out: Slot<u64> = Slot::new();
    port.dyn_unsafe_await(&mut op, &mut out);
    assert!(out.written);
    assert_eq!(out.take(), 21);
}

#[test]
fn dyn_await_polls_once_with_shared_access() {
    let port = Port::new(9, vec![]);
    let mut ready: Op<u64> = Op::new(0, 1);
    let mut out: Slot<u64> = Slot::new();
    assert_eq!(port.dyn_await(&mut ready, &mut out), Some(()));
    assert_eq!(out.take(), 1);
    assert_eq!(ready.polled, vec![9]);

    let mut pending: Op<u64> = Op::new(2, 1);
    let mut out2: Slot<u64> = Slot::new();
    assert_eq!(port.dyn_await(&mut pending, &mut out2), None);
    assert_eq!(pending.pends_left, 1);
    assert_eq!(pending.polled, vec![9]);
    assert!(!out2.written);
}

#[test]
fn op_poll_counts_down_then_delivers() {
    let mut op: Op<u64> = Op::new(2, 40);
    assert_eq!(op.poll(1), None);
    assert_eq!(op.poll(2), None);
    assert_eq!(op.poll(3), Some(40));
    assert_eq!(op.polled, vec![1, 2, 3]);
    assert_eq!(op.pends_left, 0);
    assert_eq!(op.val, None);
}

#[test]
fn slot_hands_off_exactly_once() {
    let mut slot: Slot<u64> = Slot::new();
    assert!(!slot.written);
    assert_eq!(slot.val, None);
    slot.write(31);
    assert!(slot.written);
    assert_eq!(slot.val, Some(31));
    assert_eq!(slot.take(), 31);
    assert!(slot.written);
    assert_eq!(slot.val, None);
}
