use vstd::prelude::*;

verus! {

/// What a worker sees when it asks the channel for work.
#[derive(Debug, PartialEq, Eq)]
pub enum Recv<T> {
    /// A task was dequeued; the worker must run it.
    Task(T),
    /// The channel is open but momentarily empty: wait and ask again.
    Empty,
    /// The channel is closed and the backlog is exhausted: exit.
    Drained,
}

/// The shared queue connecting submitters to workers.
///
/// Tasks are kept in submission order. Once the channel is closed no new
/// task is accepted, but the backlog remains retrievable until drained.
pub struct TaskChannel<T> {
    items: Vec<T>,
    shut: bool,
}

impl<T> TaskChannel<T> {
    /// The backlog of queued tasks, oldest first.
    pub closed spec fn tasks(self) -> Seq<T> {
        self.items@
    }

    /// Whether the channel has been closed to new tasks.
    pub closed spec fn is_closed(self) -> bool {
        self.shut
    }

    /// Creates an open, empty channel.
    pub fn new() -> (c: Self)
        ensures
            c.tasks() == Seq::<T>::empty(),
            !c.is_closed(),
    {
        TaskChannel { items: Vec::new(), shut: false }
    }

    /// How many tasks are queued right now.
    pub fn len(&self) -> (n: usize)
        ensures
            n == self.tasks().len(),
    {
        self.items.len()
    }

    /// Whether intake has been closed.
    pub fn intake_closed(&self) -> (b: bool)
        ensures
            b == self.is_closed(),
    {
        self.shut
    }

    /// Enqueues `task` unless the channel is closed; a rejected task is
    /// handed back to the caller unchanged.
    pub fn send(&mut self, task: T) -> (r: Result<(), T>)
        ensures
            old(self).is_closed() ==> ({
                &&& r == Err::<(), T>(task)
                &&& final(self).tasks() == old(self).tasks()
                &&& final(self).is_closed()
            }),
            !old(self).is_closed() ==> ({
                &&& r == Ok::<(), T>(())
                &&& final(self).tasks() == old(self).tasks().push(task)
                &&& !final(self).is_closed()
            }),
    {
        if self.shut {
            Err(task)
        } else {
            self.items.push(task);
            Ok(())
        }
    }

    /// Dequeues the oldest task, or reports why none is available.
    pub fn recv(&mut self) -> (r: Recv<T>)
        ensures
            final(self).is_closed() == old(self).is_closed(),
            old(self).tasks().len() > 0 ==> ({
                &&& r == Recv::Task(old(self).tasks()[0])
                &&& final(self).tasks() == old(self).tasks().skip(1)
            }),
            old(self).tasks().len() == 0 ==> ({
                &&& final(self).tasks() == old(self).tasks()
                &&& r == (if old(self).is_closed() {
                    Recv::<T>::Drained
                } else {
                    Recv::<T>::Empty
                })
            }),
    {
        if self.items.len() > 0 {
            let t = self.items.remove(0);
            proof {
                assert(self.items@ =~= old(self).items@.skip(1));
            }
            Recv::Task(t)
        } else if self.shut {
            Recv::Drained
        } else {
            Recv::Empty
        }
    }

    /// Closes intake: no further task is accepted. Idempotent; the backlog
    /// is untouched, so workers can still drain it.
    pub fn close(&mut self)
        ensures
            final(self).is_closed(),
            final(self).tasks() == old(self).tasks(),
    {
        self.shut = true;
    }
}

} // verus!
