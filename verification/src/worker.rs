use vstd::prelude::*;

verus! {

/// The observable lifecycle of one worker thread.
#[derive(Clone, Copy, Debug, PartialEq, Eq)]
pub enum WorkerPhase {
    /// The channel is open; the worker alternates between waiting for work
    /// and running tasks.
    Running,
    /// The worker has observed that intake is closed and is consuming the
    /// remaining backlog.
    Draining,
    /// The channel was closed and empty; the worker's thread function has
    /// returned. Terminal.
    Exited,
}

/// What one iteration of a worker's loop observed.
#[derive(Clone, Copy, Debug, PartialEq, Eq)]
pub enum WorkerEvent {
    /// A task was received and run on this worker's thread; `faulted`
    /// records whether the task's body failed abnormally. The failure is
    /// contained to that one iteration.
    TaskRan { faulted: bool },
    /// The worker observed that intake is closed while tasks may remain.
    CloseObserved,
    /// The worker observed the channel closed with an empty backlog.
    BacklogDrained,
}

/// The worker state machine: running a task — faulted or not — keeps the
/// worker in its current phase, observing closure moves it to draining, and
/// only a closed, empty channel retires it. An exited worker stays exited.
pub open spec fn worker_phase_after(phase: WorkerPhase, event: WorkerEvent) -> WorkerPhase {
    match phase {
        WorkerPhase::Exited => WorkerPhase::Exited,
        _ => match event {
            WorkerEvent::TaskRan { faulted: _ } => phase,
            WorkerEvent::CloseObserved => WorkerPhase::Draining,
            WorkerEvent::BacklogDrained => WorkerPhase::Exited,
        },
    }
}

/// Advances a worker's phase by one loop iteration.
pub fn worker_step(phase: WorkerPhase, event: WorkerEvent) -> (next: WorkerPhase)
    ensures
        next == worker_phase_after(phase, event),
{
    match phase {
        WorkerPhase::Exited => WorkerPhase::Exited,
        _ => match event {
            WorkerEvent::TaskRan { faulted: _ } => phase,
            WorkerEvent::CloseObserved => WorkerPhase::Draining,
            WorkerEvent::BacklogDrained => WorkerPhase::Exited,
        },
    }
}

} // verus!
