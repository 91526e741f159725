use vstd::prelude::*;

use crate::pool::PoolModel;
use crate::worker::WorkerEvent;
use crate::worker::WorkerPhase;
use crate::worker::worker_phase_after;

verus! {

/// A submission never breaks a pool: a well-formed pool stays well formed,
/// whether the task was accepted or refused.
pub proof fn lemma_submit_preserves_wf<T>(m: PoolModel<T>, task: T)
    requires
        m.wf(),
    ensures
        m.submit(task).wf(),
{
    if !m.closed {
        assert((m.delivered + m.pending).push(task) =~= m.delivered + m.pending.push(task));
    }
}

/// Handing a task to a worker never breaks a pool: a well-formed pool stays
/// well formed after a delivery.
pub proof fn lemma_deliver_preserves_wf<T>(m: PoolModel<T>)
    requires
        m.wf(),
    ensures
        m.deliver().wf(),
{
    if m.pending.len() > 0 {
        assert(m.delivered.push(m.pending[0]) + m.pending.skip(1) =~= m.delivered + m.pending);
    }
}

/// Shutdown never breaks a pool: it only closes intake.
pub proof fn lemma_close_preserves_wf<T>(m: PoolModel<T>)
    requires
        m.wf(),
    ensures
        m.close().wf(),
{
}

/// Delivery is complete: in a well-formed pool whose backlog has been
/// drained, the delivered log is exactly the accepted log — every task whose
/// submission succeeded has been handed to a worker exactly once, in
/// submission order, and no task a worker received was ever refused at
/// submission.
pub proof fn lemma_delivery_complete<T>(m: PoolModel<T>)
    requires
        m.wf(),
        m.pending.len() == 0,
    ensures
        m.delivered == m.accepted,
{
    assert(m.delivered + m.pending =~= m.delivered);
}

/// Shutdown is idempotent: closing an already closed pool is a no-op, so a
/// second shutdown finds nothing left to do.
pub proof fn lemma_shutdown_idempotent<T>(m: PoolModel<T>)
    ensures
        m.close().close() == m.close(),
{
}

/// A closed pool rejects: after shutdown no submission is accepted, and a
/// refused submission leaves the pool exactly as it was, so the refused task
/// can never reach a worker.
pub proof fn lemma_closed_rejection<T>(m: PoolModel<T>, task: T)
    ensures
        !m.close().accepts(),
        m.close().submit(task) == m.close(),
{
}

/// The pool state reached by submitting the tasks of `ts` in order.
pub open spec fn submit_all<T>(m: PoolModel<T>, ts: Seq<T>) -> PoolModel<T>
    decreases ts.len(),
{
    if ts.len() == 0 {
        m
    } else {
        submit_all(m.submit(ts[0]), ts.skip(1))
    }
}

/// Concurrent submission loses nothing: the submissions of any number of
/// producers, serialized by the channel in whatever order they arrive, are
/// one task sequence, and submitting any such sequence to an open pool
/// accepts and enqueues every task of it, in that order — in particular,
/// exactly `ts.len()` tasks are added, none lost and none duplicated.
pub proof fn lemma_submit_all_accepted<T>(m: PoolModel<T>, ts: Seq<T>)
    requires
        !m.closed,
    ensures
        submit_all(m, ts).accepted == m.accepted + ts,
        submit_all(m, ts).pending == m.pending + ts,
        submit_all(m, ts).delivered == m.delivered,
        submit_all(m, ts).workers == m.workers,
        !submit_all(m, ts).closed,
        submit_all(m, ts).accepted.len() == m.accepted.len() + ts.len(),
    decreases ts.len(),
{
    if ts.len() == 0 {
        assert(m.accepted + ts =~= m.accepted);
        assert(m.pending + ts =~= m.pending);
    } else {
        let stepped = m.submit(ts[0]);
        lemma_submit_all_accepted(stepped, ts.skip(1));
        assert(m.accepted.push(ts[0]) + ts.skip(1) =~= m.accepted + ts);
        assert(m.pending.push(ts[0]) + ts.skip(1) =~= m.pending + ts);
    }
}

/// One observable operation on a pool: a caller submits a task, a worker
/// pulls one, or shutdown closes intake.
pub enum PoolOp<T> {
    Submit(T),
    Deliver,
    Shutdown,
}

/// The pool state after one operation.
pub open spec fn apply_op<T>(m: PoolModel<T>, op: PoolOp<T>) -> PoolModel<T> {
    match op {
        PoolOp::Submit(task) => m.submit(task),
        PoolOp::Deliver => m.deliver(),
        PoolOp::Shutdown => m.close(),
    }
}

/// The pool state after a whole history of operations, applied in order.
pub open spec fn apply_history<T>(m: PoolModel<T>, ops: Seq<PoolOp<T>>) -> PoolModel<T>
    decreases ops.len(),
{
    if ops.len() == 0 {
        m
    } else {
        apply_history(apply_op(m, ops[0]), ops.skip(1))
    }
}

/// The pool invariant survives every history: however submissions,
/// deliveries and shutdowns interleave — and any concurrent run, serialized
/// at the channel, is such a history — a well-formed pool stays well formed.
pub proof fn lemma_wf_along_every_history<T>(m: PoolModel<T>, ops: Seq<PoolOp<T>>)
    requires
        m.wf(),
    ensures
        apply_history(m, ops).wf(),
    decreases ops.len(),
{
    if ops.len() > 0 {
        match ops[0] {
            PoolOp::Submit(task) => lemma_submit_preserves_wf(m, task),
            PoolOp::Deliver => lemma_deliver_preserves_wf(m),
            PoolOp::Shutdown => lemma_close_preserves_wf(m),
        }
        lemma_wf_along_every_history(apply_op(m, ops[0]), ops.skip(1));
    }
}

/// No history loses a task: whenever a history starting from a well-formed
/// pool ends with an empty backlog — as shutdown's drain guarantees — the
/// delivered log equals the accepted log, so every task that was ever
/// accepted has been handed to a worker exactly once.
pub proof fn lemma_no_history_loses_a_task<T>(m: PoolModel<T>, ops: Seq<PoolOp<T>>)
    requires
        m.wf(),
        apply_history(m, ops).pending.len() == 0,
    ensures
        apply_history(m, ops).delivered == apply_history(m, ops).accepted,
{
    lemma_wf_along_every_history(m, ops);
    lemma_delivery_complete(apply_history(m, ops));
}

/// Fault isolation: a task that fails abnormally leaves its worker in
/// exactly the phase a successful task would, and never in the terminal
/// phase — the worker goes on to its next iteration, so later tasks are
/// still picked up.
pub proof fn lemma_fault_isolation(phase: WorkerPhase)
    ensures
        worker_phase_after(phase, (WorkerEvent::TaskRan { faulted: true }))
            == worker_phase_after(phase, (WorkerEvent::TaskRan { faulted: false })),
        phase != WorkerPhase::Exited ==> worker_phase_after(
            phase,
            (WorkerEvent::TaskRan { faulted: true }),
        ) != WorkerPhase::Exited,
{
}

} // verus!
