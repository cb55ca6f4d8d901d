use awaiter_trait::adapter::{CoroFuture, PollResult};
use awaiter_trait::coroutine::{
    Coroutine, CoroutineMut, CoroutineMutSelfMut, CoroutineSelfMut, FixedStack, Stacc,
    UnsafeCoroutine, UnsafeCoroutineMut, UnsafeCoroutineMutSelfMut, UnsafeCoroutineSelfMut,
    MIN_STACK,
};
use awaiter_trait::coroutine::UPS;
use awaiter_trait::engine::{Engine, EngineState, ResumeOutcome};
use awaiter_trait::op::Op;

fn provider() -> Stacc<FixedStack> {
    Stacc { via: FixedStack { len: 65536 } }
}

fn ready(v: u64) -> Op<u64> {
    Op::new(0, v)
}

fn pending_then_ready(v: u64, after: u64) -> Op<u64> {
    Op::new(after, v)
}

#[test]
fn ready_op_completes_on_first_poll() {
    let mut fut = provider().exec(vec![ready(3)], None);
    match fut.poll(11) {
        PollResult::Ready(v) => assert_eq!(v, vec![3]),
        _ => panic!("expected completion on the first poll"),
    }
    assert_eq!(fut.suspend_count(), 0);
    assert_eq!(fut.poll_count(), 1);
    assert_eq!(fut.engine.state, EngineState::Completed);
}

#[test]
fn n_pends_take_n_plus_one_polls() {
    let mut fut = provider().exec(vec![pending_then_ready(5, 2)], None);
    assert!(matches!(fut.poll(1), PollResult::Pending));
    assert!(matches!(fut.poll(2), PollResult::Pending));
    match fut.poll(3) {
        PollResult::Ready(v) => assert_eq!(v, vec![5]),
        _ => panic!("expected completion on the third poll"),
    }
    assert_eq!(fut.poll_count(), 3);
    assert_eq!(fut.suspend_count(), 2);
}

#[test]
fn scenario_two_cycles_sum_seven() {
    let mut fut = provider().exec(vec![ready(3), pending_then_ready(4, 2)], None);
    assert!(matches!(fut.poll(21), PollResult::Pending));
    assert!(matches!(fut.poll(22), PollResult::Pending));
    let results = match fut.poll(23) {
        PollResult::Ready(v) => v,
        _ => panic!("expected completion on the third poll"),
    };
    assert_eq!(results, vec![3, 4]);
    let a = results[0];
    let b = results[1];
    assert_eq!(a + b, 7);
    assert_eq!(fut.suspend_count(), 2);
}

#[test]
fn every_poll_uses_its_own_token() {
    let mut fut = provider().exec(vec![ready(3), pending_then_ready(4, 2)], None);
    fut.poll(21);
    fut.poll(22);
    fut.poll(23);
    assert_eq!(fut.engine.ops[0].polled, vec![21]);
    assert_eq!(fut.engine.ops[1].polled, vec![21, 22, 23]);
    assert_eq!(fut.engine.resumes, vec![21, 22, 23]);
    assert_eq!(fut.engine.cell, 23);
}

#[test]
fn results_arrive_in_program_order() {
    let mut fut = provider().exec(vec![ready(1), ready(2), pending_then_ready(3, 1)], None);
    assert!(matches!(fut.poll(8), PollResult::Pending));
    match fut.poll(9) {
        PollResult::Ready(v) => assert_eq!(v, vec![1, 2, 3]),
        _ => panic!("expected completion on the second poll"),
    }
}

#[test]
fn cancel_runs_cleanup_exactly_once() {
    let mut fut = provider().exec(vec![pending_then_ready(9, 3)], None);
    assert!(matches!(fut.poll(1), PollResult::Pending));
    assert_eq!(fut.engine.acquired, 1);
    assert_eq!(fut.engine.released, 0);
    fut.cancel();
    assert_eq!(fut.engine.acquired, 1);
    assert_eq!(fut.engine.released, 1);
    assert_eq!(fut.engine.state, EngineState::Cancelled);
    assert_eq!(fut.suspend_count(), 1);
    fut.cancel();
    assert_eq!(fut.engine.acquired, 1);
    assert_eq!(fut.engine.released, 1);
}

#[test]
fn cancel_before_first_poll_has_nothing_to_release() {
    let mut fut = provider().exec(vec![ready(1)], None);
    fut.cancel();
    assert_eq!(fut.engine.acquired, 0);
    assert_eq!(fut.engine.released, 0);
    assert_eq!(fut.engine.state, EngineState::Initial);
}

#[test]
fn fault_after_one_await_reaches_the_driver() {
    let mut fut = provider().exec(vec![ready(5)], Some(1));
    match fut.poll(2) {
        PollResult::Faulted => {},
        _ => panic!("the fault must be observed by the code driving poll"),
    }
    assert_eq!(fut.engine.state, EngineState::Faulted);
    assert_eq!(fut.engine.acquired, 1);
    assert_eq!(fut.engine.released, 1);
    assert!(!fut.slot.written);
    assert_eq!(fut.engine.done, vec![5]);
}

#[test]
fn fault_before_any_await() {
    let mut fut = provider().exec(vec![ready(5)], Some(0));
    assert!(matches!(fut.poll(2), PollResult::Faulted));
    assert_eq!(fut.engine.done, vec![] as Vec<u64>);
    assert_eq!(fut.engine.released, 1);
}

#[test]
fn engine_resume_outcomes() {
    let mut eng = Engine::new(vec![pending_then_ready(6, 1)], None);
    assert_eq!(eng.state, EngineState::Initial);
    assert_eq!(eng.resume(10), ResumeOutcome::Suspended);
    assert_eq!(eng.state, EngineState::Suspended);
    assert_eq!(eng.resume(11), ResumeOutcome::Completed);
    assert_eq!(eng.state, EngineState::Completed);
    assert_eq!(eng.done, vec![6]);
    assert_eq!(eng.resume_count(), 2);
    assert_eq!(eng.suspend_count(), 1);
}

#[test]
fn small_stacks_are_rounded_up_to_the_floor() {
    let small = Stacc { via: FixedStack { len: 1 } };
    let fut = small.exec(vec![ready(0)], None);
    assert_eq!(fut.stack_len, MIN_STACK);
    let big = Stacc { via: FixedStack { len: MIN_STACK * 4 } };
    let fut2 = big.exec(vec![ready(0)], None);
    assert_eq!(fut2.stack_len, MIN_STACK * 4);
}

#[test]
fn unsafe_exec_uses_the_stack_as_provided() {
    let big = Stacc { via: FixedStack { len: MIN_STACK + 1 } };
    let fut = big.unsafe_exec(vec![ready(0)], None);
    assert_eq!(fut.stack_len, MIN_STACK + 1);
}

#[test]
fn every_capability_variant_starts_an_equivalent_context() {
    let mut sp = provider();
    let drive = |mut fut: CoroFuture<u64>| {
        assert!(matches!(fut.poll(1), PollResult::Pending));
        match fut.poll(2) {
            PollResult::Ready(v) => assert_eq!(v, vec![14]),
            _ => panic!("expected completion on the second poll"),
        }
    };
    drive(sp.exec(vec![pending_then_ready(14, 1)], None));
    drive(sp.exec_mut(vec![pending_then_ready(14, 1)], None));
    drive(sp.exec_self_mut(vec![pending_then_ready(14, 1)], None));
    drive(sp.exec_mut_self_mut(vec![pending_then_ready(14, 1)], None));
    drive(sp.unsafe_exec(vec![pending_then_ready(14, 1)], None));
    drive(sp.unsafe_exec_mut(vec![pending_then_ready(14, 1)], None));
    drive(sp.unsafe_exec_self_mut(vec![pending_then_ready(14, 1)], None));
    drive(sp.unsafe_exec_mut_self_mut(vec![pending_then_ready(14, 1)], None));
}

#[test]
fn provider_reports_its_stack_length() {
    let via = FixedStack { len: 12345 };
    assert_eq!(via.provide(), 12345);
}
