use vstd::prelude::*;

use crate::engine::{advance, drive_model, resume_step, EngineModel, OpModel};

verus! {

/// The values of the operations `ops[lo..hi]`, in index order.
pub open spec fn values_of<V>(ops: Seq<OpModel<V>>, lo: int, hi: int) -> Seq<V> {
    Seq::new((hi - lo) as nat, |i: int| ops[lo + i].val.unwrap())
}

/// What one entry of the alternate context does, in full: it delivers a
/// contiguous run of ready operations starting at the current position,
/// polling each exactly once with the entry's token, appends their
/// values to the results in program order, and stops at the first
/// operation still pending (one poll, one fewer report left), at the
/// body's fault point, or at the body's end.
pub proof fn lemma_advance_effect<V>(m: EngineModel<V>, t: u64)
    requires
        0 <= m.at <= m.ops.len(),
    ensures
        ({
            let r = advance(m, t);
            &&& m.at <= r.at <= m.ops.len()
            &&& r.ops.len() == m.ops.len()
            &&& r.done == m.done + values_of(m.ops, m.at, r.at)
            &&& r.cell == m.cell
            &&& r.resumes == m.resumes
            &&& r.fault_at == m.fault_at
            &&& r.acquired == m.acquired
            &&& (r.state is Suspended || r.state is Completed || r.state is Faulted)
            &&& (forall|j: int| 0 <= j < m.at ==> (#[trigger] r.ops[j]) == m.ops[j])
            &&& (forall|j: int| r.at < j < m.ops.len() ==> (#[trigger] r.ops[j]) == m.ops[j])
            &&& (forall|j: int|
                m.at <= j < r.at ==> (#[trigger] r.ops[j]).val is None && r.ops[j].pends == 0
                    && r.ops[j].polled == m.ops[j].polled.push(t) && m.ops[j].pends == 0)
            &&& (r.state is Suspended ==> 0 <= r.at < m.ops.len() && r.released == m.released
                && m.ops[r.at].pends > 0 && r.ops[r.at].pends == m.ops[r.at].pends - 1
                && r.ops[r.at].val == m.ops[r.at].val
                && r.ops[r.at].polled == m.ops[r.at].polled.push(t)
                && !(m.fault_at == Some(r.at)))
            &&& (r.state is Completed ==> r.at == m.ops.len() && r.released == m.acquired)
            &&& (r.state is Faulted ==> m.fault_at == Some(r.at) && r.released == m.acquired && (
            r.at < m.ops.len() ==> r.ops[r.at] == m.ops[r.at]))
        }),
    decreases m.ops.len() - m.at,
{
    let r = advance(m, t);
    if m.fault_at == Some(m.at) {
        assert(r.done =~= m.done + values_of(m.ops, m.at, m.at));
    } else if !(0 <= m.at < m.ops.len()) {
        assert(r.done =~= m.done + values_of(m.ops, m.at, m.at));
    } else {
        let op = m.ops[m.at];
        if op.pends == 0 {
            let m2 = EngineModel {
                ops: m.ops.update(m.at, OpModel { val: None, polled: op.polled.push(t), ..op }),
                at: m.at + 1,
                done: m.done.push(op.val.unwrap()),
                ..m
            };
            lemma_advance_effect(m2, t);
            assert(values_of(m2.ops, m2.at, r.at) =~= values_of(m.ops, m2.at, r.at));
            assert(m.done + values_of(m.ops, m.at, r.at) =~= m2.done + values_of(
                m.ops,
                m2.at,
                r.at,
            ));
        } else {
            assert(r.done =~= m.done + values_of(m.ops, m.at, m.at));
        }
    }
}

/// When every operation of a fresh context is already ready and the
/// body has no fault point, the very first resumption runs the body to
/// completion: no suspension ever happens, every operation is polled
/// exactly once with that first token, and the results come out in
/// program order.
pub proof fn law_ready_ops_complete_on_first_resume<V>(m: EngineModel<V>, t: u64)
    requires
        m.state is Initial,
        m.at == 0,
        m.fault_at is None,
        forall|j: int| 0 <= j < m.ops.len() ==> (#[trigger] m.ops[j]).pends == 0,
    ensures
        ({
            let r = resume_step(m, t);
            &&& r.state is Completed
            &&& r.at == m.ops.len()
            &&& r.resumes == m.resumes.push(t)
            &&& r.done == m.done + values_of(m.ops, 0, m.ops.len() as int)
            &&& forall|j: int|
                0 <= j < m.ops.len() ==> (#[trigger] r.ops[j]).polled == m.ops[j].polled.push(t)
        }),
{
    let m1 = EngineModel {
        cell: t,
        resumes: m.resumes.push(t),
        acquired: m.acquired + 1,
        ..m
    };
    lemma_advance_effect(m1, t);
    let r = advance(m1, t);
    assert(!(r.state is Suspended));
    assert(!(r.state is Faulted));
    assert(values_of(m1.ops, 0, m1.ops.len() as int) =~= values_of(m.ops, 0, m.ops.len() as int));
}

/// Every wake-up token the alternate context observes during one
/// resumption is the token passed into that very resumption — never a
/// stale one — and it is the one left in the resumption cell.
pub proof fn law_freshest_token_observed<V>(m: EngineModel<V>, t: u64)
    requires
        0 <= m.at <= m.ops.len(),
    ensures
        ({
            let r = resume_step(m, t);
            &&& r.cell == t
            &&& r.resumes == m.resumes.push(t)
            &&& forall|j: int|
                0 <= j < m.ops.len() ==> (#[trigger] r.ops[j]).polled == m.ops[j].polled
                    || r.ops[j].polled == m.ops[j].polled.push(t)
        }),
{
    let m1 = EngineModel {
        cell: t,
        resumes: m.resumes.push(t),
        acquired: if m.state is Initial {
            m.acquired + 1
        } else {
            m.acquired
        },
        ..m
    };
    lemma_advance_effect(m1, t);
}

/// Results are delivered strictly in program order: one resumption
/// appends to the results exactly the values of the operations it
/// completed, in the order the body asked for them.
pub proof fn law_results_in_program_order<V>(m: EngineModel<V>, t: u64)
    requires
        0 <= m.at <= m.ops.len(),
    ensures
        ({
            let r = resume_step(m, t);
            &&& m.at <= r.at <= m.ops.len()
            &&& r.done == m.done + values_of(m.ops, m.at, r.at)
        }),
{
    let m1 = EngineModel {
        cell: t,
        resumes: m.resumes.push(t),
        acquired: if m.state is Initial {
            m.acquired + 1
        } else {
            m.acquired
        },
        ..m
    };
    lemma_advance_effect(m1, t);
    let r = resume_step(m, t);
    assert(values_of(m1.ops, m1.at, r.at) =~= values_of(m.ops, m.at, r.at));
}

/// While a body blocked on one operation still has not-ready reports
/// left, no number of resumptions short of them completes it: after k
/// of the needed N resumptions the context is still suspended, with
/// N - k reports to go and the operation polled exactly k more times.
pub proof fn law_pending_op_still_pending<V>(m: EngineModel<V>, toks: Seq<u64>)
    requires
        m.state is Initial || m.state is Suspended,
        m.at == 0,
        m.ops.len() == 1,
        m.fault_at is None,
        1 <= toks.len() <= m.ops[0].pends,
    ensures
        ({
            let r = drive_model(m, toks);
            &&& r.state is Suspended
            &&& r.at == 0
            &&& r.resumes == m.resumes + toks
            &&& r.ops[0].polled == m.ops[0].polled + toks
            &&& r.ops[0].pends == m.ops[0].pends - toks.len()
            &&& r.ops[0].val == m.ops[0].val
            &&& r.done == m.done
        }),
    decreases toks.len(),
{
    let t0 = toks[0];
    let m1 = resume_step(m, t0);
    let mp = EngineModel {
        cell: t0,
        resumes: m.resumes.push(t0),
        acquired: if m.state is Initial {
            m.acquired + 1
        } else {
            m.acquired
        },
        ..m
    };
    lemma_advance_effect(mp, t0);
    assert(m1.state is Suspended);
    assert(m1.at == 0);
    if toks.len() == 1 {
        assert(drive_model(m1, toks.skip(1)) == m1);
        assert(m1.resumes =~= m.resumes + toks);
        assert(m1.ops[0].polled =~= m.ops[0].polled + toks);
    } else {
        law_pending_op_still_pending(m1, toks.skip(1));
        let rr = drive_model(m1, toks.skip(1));
        assert(rr.resumes =~= m.resumes + toks);
        assert(rr.ops[0].polled =~= m.ops[0].polled + toks);
    }
}

/// A body blocked on one operation that reports "not ready" N times
/// completes after exactly N suspend/resume round trips and N + 1
/// resumptions: each resumption polls the operation exactly once, with
/// its own token, and the last one delivers the value.
pub proof fn law_pending_op_round_trips<V>(m: EngineModel<V>, toks: Seq<u64>)
    requires
        m.state is Initial || m.state is Suspended,
        m.at == 0,
        m.ops.len() == 1,
        m.ops[0].val is Some,
        m.fault_at is None,
        toks.len() == m.ops[0].pends + 1,
    ensures
        ({
            let r = drive_model(m, toks);
            &&& r.state is Completed
            &&& r.resumes == m.resumes + toks
            &&& r.ops[0].polled == m.ops[0].polled + toks
            &&& r.done == m.done.push(m.ops[0].val.unwrap())
        }),
    decreases toks.len(),
{
    let t0 = toks[0];
    let m1 = resume_step(m, t0);
    let mp = EngineModel {
        cell: t0,
        resumes: m.resumes.push(t0),
        acquired: if m.state is Initial {
            m.acquired + 1
        } else {
            m.acquired
        },
        ..m
    };
    lemma_advance_effect(mp, t0);
    let r = drive_model(m, toks);
    if m.ops[0].pends == 0 {
        assert(m1.state is Completed);
        assert(m1.done =~= m.done.push(m.ops[0].val.unwrap())) by {
            assert(values_of(mp.ops, 0, 1) =~= seq![m.ops[0].val.unwrap()]);
        }
        assert(drive_model(m1, toks.skip(1)) == m1);
        assert(m1.resumes =~= m.resumes + toks);
        assert(m1.ops[0].polled =~= m.ops[0].polled + toks);
    } else {
        assert(m1.state is Suspended);
        assert(m1.at == 0);
        law_pending_op_round_trips(m1, toks.skip(1));
        let rr = drive_model(m1, toks.skip(1));
        assert(r == rr);
        assert(rr.resumes =~= m.resumes + toks);
        assert(rr.ops[0].polled =~= m.ops[0].polled + toks);
    }
}

} // verus!
