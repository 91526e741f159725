use workpool::worker::WorkerEvent;
use workpool::worker::WorkerPhase;
use workpool::worker::worker_step;

#[test]
fn running_worker_keeps_running_through_tasks() {
    let ok = WorkerEvent::TaskRan { faulted: false };
    assert_eq!(worker_step(WorkerPhase::Running, ok), WorkerPhase::Running);
    assert_eq!(worker_step(WorkerPhase::Draining, ok), WorkerPhase::Draining);
}

#[test]
fn a_fault_moves_the_worker_exactly_as_success_does() {
    let fault = WorkerEvent::TaskRan { faulted: true };
    let ok = WorkerEvent::TaskRan { faulted: false };
    for phase in [WorkerPhase::Running, WorkerPhase::Draining, WorkerPhase::Exited] {
        assert_eq!(worker_step(phase, fault), worker_step(phase, ok));
    }
    assert_eq!(worker_step(WorkerPhase::Running, fault), WorkerPhase::Running);
}

#[test]
fn observing_closure_starts_draining() {
    assert_eq!(
        worker_step(WorkerPhase::Running, WorkerEvent::CloseObserved),
        WorkerPhase::Draining
    );
    assert_eq!(
        worker_step(WorkerPhase::Draining, WorkerEvent::CloseObserved),
        WorkerPhase::Draining
    );
}

#[test]
fn a_drained_channel_retires_the_worker() {
    assert_eq!(
        worker_step(WorkerPhase::Running, WorkerEvent::BacklogDrained),
        WorkerPhase::Exited
    );
    assert_eq!(
        worker_step(WorkerPhase::Draining, WorkerEvent::BacklogDrained),
        WorkerPhase::Exited
    );
}

#[test]
fn exited_is_terminal() {
    for event in [
        WorkerEvent::TaskRan { faulted: false },
        WorkerEvent::TaskRan { faulted: true },
        WorkerEvent::CloseObserved,
        WorkerEvent::BacklogDrained,
    ] {
        assert_eq!(worker_step(WorkerPhase::Exited, event), WorkerPhase::Exited);
    }
}
