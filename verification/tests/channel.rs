use workpool::channel::Recv;
use workpool::channel::TaskChannel;

#[test]
fn new_channel_is_open_and_empty() {
    let c: TaskChannel<u64> = TaskChannel::new();
    assert_eq!(c.len(), 0);
    assert!(!c.intake_closed());
}

#[test]
fn send_then_recv_is_fifo() {
    let mut c: TaskChannel<u64> = TaskChannel::new();
    assert_eq!(c.send(1), Ok(()));
    assert_eq!(c.send(2), Ok(()));
    assert_eq!(c.send(3), Ok(()));
    assert_eq!(c.len(), 3);
    assert_eq!(c.recv(), Recv::Task(1));
    assert_eq!(c.recv(), Recv::Task(2));
    assert_eq!(c.recv(), Recv::Task(3));
    assert_eq!(c.len(), 0);
}

#[test]
fn recv_on_open_empty_channel_says_wait() {
    let mut c: TaskChannel<u64> = TaskChannel::new();
    assert_eq!(c.recv(), Recv::Empty);
    assert_eq!(c.recv(), Recv::Empty);
}

#[test]
fn send_after_close_returns_the_task() {
    let mut c: TaskChannel<String> = TaskChannel::new();
    assert_eq!(c.send(String::from("kept")), Ok(()));
    c.close();
    assert_eq!(c.send(String::from("late")), Err(String::from("late")));
    assert_eq!(c.len(), 1);
}

#[test]
fn close_keeps_backlog_retrievable_then_drains() {
    let mut c: TaskChannel<u64> = TaskChannel::new();
    assert_eq!(c.send(10), Ok(()));
    assert_eq!(c.send(20), Ok(()));
    c.close();
    assert!(c.intake_closed());
    assert_eq!(c.recv(), Recv::Task(10));
    assert_eq!(c.recv(), Recv::Task(20));
    assert_eq!(c.recv(), Recv::Drained);
    assert_eq!(c.recv(), Recv::Drained);
}

#[test]
fn close_is_idempotent() {
    let mut c: TaskChannel<u64> = TaskChannel::new();
    assert_eq!(c.send(5), Ok(()));
    c.close();
    c.close();
    assert!(c.intake_closed());
    assert_eq!(c.len(), 1);
    assert_eq!(c.recv(), Recv::Task(5));
    assert_eq!(c.recv(), Recv::Drained);
}
