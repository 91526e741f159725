use vstd::prelude::*;

use crate::channel::Recv;
use crate::channel::TaskChannel;

verus! {

/// The abstract state of a pool: its fixed worker count, the backlog of
/// tasks waiting in the channel, the log of every task whose submission
/// succeeded, the log of every task already handed to a worker, and whether
/// intake has been closed by shutdown.
#[verifier::ext_equal]
pub struct PoolModel<T> {
    pub workers: nat,
    pub pending: Seq<T>,
    pub accepted: Seq<T>,
    pub delivered: Seq<T>,
    pub closed: bool,
}

impl<T> PoolModel<T> {
    /// A pool is well formed when it has at least one worker and every
    /// accepted task is accounted for exactly once: it was either already
    /// handed to a worker or still waits in the backlog, in order.
    pub open spec fn wf(self) -> bool {
        &&& self.workers > 0
        &&& self.accepted == self.delivered + self.pending
    }

    /// Whether a submission would be accepted in this state.
    pub open spec fn accepts(self) -> bool {
        !self.closed
    }

    /// The state after a submission: a closed pool is unchanged, an open one
    /// appends the task to both the backlog and the accepted log.
    pub open spec fn submit(self, task: T) -> PoolModel<T> {
        if self.closed {
            self
        } else {
            PoolModel {
                workers: self.workers,
                pending: self.pending.push(task),
                accepted: self.accepted.push(task),
                delivered: self.delivered,
                closed: self.closed,
            }
        }
    }

    /// The state after shutdown begins: intake is closed, nothing else moves.
    pub open spec fn close(self) -> PoolModel<T> {
        PoolModel {
            workers: self.workers,
            pending: self.pending,
            accepted: self.accepted,
            delivered: self.delivered,
            closed: true,
        }
    }

    /// The state after a worker pulls one task: the oldest pending task
    /// moves from the backlog to the delivered log; an empty backlog leaves
    /// the state unchanged.
    pub open spec fn deliver(self) -> PoolModel<T> {
        if self.pending.len() == 0 {
            self
        } else {
            PoolModel {
                workers: self.workers,
                pending: self.pending.skip(1),
                accepted: self.accepted,
                delivered: self.delivered.push(self.pending[0]),
                closed: self.closed,
            }
        }
    }
}

/// Why a pool could not be built.
#[derive(Clone, Copy, Debug, PartialEq, Eq)]
pub enum BuildError {
    /// A pool of zero workers could never run anything.
    ZeroWorkers,
}

/// Why a submission was refused. The task is handed back so the caller can
/// retry it elsewhere, log it, or drop it.
#[derive(Debug, PartialEq, Eq)]
pub enum SubmitError<T> {
    /// The pool has been shut down and accepts no further work.
    Closed(T),
}

/// A fixed-size worker pool: it owns the task channel's intake and decides,
/// for every submission, delivery, and shutdown, how the pool state moves.
///
/// Tasks are opaque to the pool; executing one is the worker thread's
/// business, so the pool records delivery, not completion. The ghost logs
/// tie every accepted task to exactly one delivery.
pub struct ThreadPool<T> {
    size: usize,
    chan: TaskChannel<T>,
    accepted: Ghost<Seq<T>>,
    delivered: Ghost<Seq<T>>,
}

impl<T> ThreadPool<T> {
    /// The pool's abstract state.
    pub closed spec fn model(self) -> PoolModel<T> {
        PoolModel {
            workers: self.size as nat,
            pending: self.chan.tasks(),
            accepted: self.accepted@,
            delivered: self.delivered@,
            closed: self.chan.is_closed(),
        }
    }

    /// Builds a pool of `size` workers over a fresh, open, empty channel.
    /// A zero size is a programming error and is ruled out up front.
    pub fn build(size: usize) -> (p: Self)
        requires
            size > 0,
        ensures
            p@.workers == size as nat,
            p@.pending == Seq::<T>::empty(),
            p@.accepted == Seq::<T>::empty(),
            p@.delivered == Seq::<T>::empty(),
            !p@.closed,
            p@.wf(),
    {
        ThreadPool {
            size,
            chan: TaskChannel::new(),
            accepted: Ghost(Seq::empty()),
            delivered: Ghost(Seq::empty()),
        }
    }

    /// Builds a pool, surfacing the zero-size case as an error instead of a
    /// fault: exactly the sizes above zero yield a pool, of exactly that
    /// many workers.
    pub fn try_build(size: usize) -> (r: Result<Self, BuildError>)
        ensures
            size > 0 <==> r is Ok,
            r is Err ==> r == Err::<Self, BuildError>(BuildError::ZeroWorkers),
            r matches Ok(p) ==> ({
                &&& p@.workers == size as nat
                &&& p@.pending == Seq::<T>::empty()
                &&& p@.accepted == Seq::<T>::empty()
                &&& p@.delivered == Seq::<T>::empty()
                &&& !p@.closed
                &&& p@.wf()
            }),
    {
        if size > 0 {
            Ok(Self::build(size))
        } else {
            Err(BuildError::ZeroWorkers)
        }
    }

    /// The fixed number of workers this pool was built with.
    pub fn worker_count(&self) -> (n: usize)
        ensures
            n == self@.workers,
    {
        self.size
    }

    /// How many accepted tasks still wait for a worker.
    pub fn queued_count(&self) -> (n: usize)
        ensures
            n == self@.pending.len(),
    {
        self.chan.len()
    }

    /// Whether a submission would currently be accepted.
    pub fn accepting(&self) -> (b: bool)
        ensures
            b == self@.accepts(),
    {
        !self.is_shut_down()
    }

    /// Whether shutdown has closed intake.
    pub fn is_shut_down(&self) -> (b: bool)
        ensures
            b == self@.closed,
    {
        self.chan.intake_closed()
    }

    /// Submits a task. On a live pool the task is enqueued and the call
    /// returns at once, without waiting for execution; on a shut-down pool
    /// the very same task comes back inside the error and the pool state is
    /// untouched, so a rejected task is never run.
    pub fn execute(&mut self, task: T) -> (r: Result<(), SubmitError<T>>)
        ensures
            final(self)@ == old(self)@.submit(task),
            old(self)@.accepts() ==> r == Ok::<(), SubmitError<T>>(()),
            !old(self)@.accepts() ==> r == Err::<(), SubmitError<T>>(SubmitError::Closed(task)),
            old(self)@.wf() ==> final(self)@.wf(),
    {
        let ghost pre = self.model();
        let ghost t = task;
        let outcome = match self.chan.send(task) {
            Ok(()) => {
                self.accepted = Ghost(self.accepted@.push(t));
                Ok(())
            },
            Err(rejected) => Err(SubmitError::Closed(rejected)),
        };
        proof {
            if pre.wf() && !pre.closed {
                assert((pre.delivered + pre.pending).push(t) =~= pre.delivered
                    + pre.pending.push(t));
            }
        }
        outcome
    }

    /// Begins shutdown: closes the channel so no further task is accepted.
    /// Idempotent, and the backlog is untouched: every task accepted before
    /// this call is still owed a delivery, which the workers' drain provides.
    pub fn shutdown(&mut self)
        ensures
            final(self)@ == old(self)@.close(),
            old(self)@.wf() ==> final(self)@.wf(),
    {
        self.chan.close();
    }

    /// Hands the oldest pending task to the calling worker. `Empty` tells
    /// the worker to wait for work, `Drained` that the pool is shut down and
    /// fully drained, so the worker may exit.
    pub fn next_task(&mut self) -> (r: Recv<T>)
        ensures
            final(self)@ == old(self)@.deliver(),
            old(self)@.pending.len() > 0 ==> r == Recv::Task(old(self)@.pending[0]),
            old(self)@.pending.len() == 0 ==> r == (if old(self)@.closed {
                Recv::<T>::Drained
            } else {
                Recv::<T>::Empty
            }),
            old(self)@.wf() ==> final(self)@.wf(),
    {
        let ghost pre = self.model();
        let outcome = match self.chan.recv() {
            Recv::Task(t) => {
                self.delivered = Ghost(self.delivered@.push(t));
                Recv::Task(t)
            },
            Recv::Empty => Recv::Empty,
            Recv::Drained => Recv::Drained,
        };
        proof {
            if pre.wf() && pre.pending.len() > 0 {
                assert(pre.delivered.push(pre.pending[0]) + pre.pending.skip(1)
                    =~= pre.delivered + pre.pending);
            }
        }
        outcome
    }

    /// Runs the workers' drain protocol to completion on the calling
    /// thread: pulls every pending task, in order, until the backlog is
    /// empty, and returns exactly that backlog. On a well-formed pool the
    /// delivered log afterwards equals the accepted log: every task whose
    /// submission succeeded has been handed to a worker exactly once.
    pub fn drain(&mut self) -> (r: Vec<T>)
        ensures
            r@ == old(self)@.pending,
            final(self)@.pending.len() == 0,
            final(self)@.delivered == old(self)@.delivered + old(self)@.pending,
            final(self)@.accepted == old(self)@.accepted,
            final(self)@.closed == old(self)@.closed,
            final(self)@.workers == old(self)@.workers,
            old(self)@.wf() ==> final(self)@.delivered == final(self)@.accepted,
            old(self)@.wf() ==> final(self)@.wf(),
    {
        let ghost pre = self.model();
        let mut out: Vec<T> = Vec::new();
        proof {
            assert(out@ =~= pre.pending.take(0));
            assert(self@.pending =~= pre.pending.skip(0));
            assert(self@.delivered =~= pre.delivered + out@);
        }
        while self.queued_count() > 0
            invariant
                out@.len() <= pre.pending.len(),
                out@ == pre.pending.take(out@.len() as int),
                self@.pending == pre.pending.skip(out@.len() as int),
                self@.delivered == pre.delivered + out@,
                self@.accepted == pre.accepted,
                self@.closed == pre.closed,
                self@.workers == pre.workers,
            decreases self@.pending.len(),
        {
            let ghost seen = out@.len() as int;
            match self.next_task() {
                Recv::Task(task) => {
                    out.push(task);
                    proof {
                        assert(out@ =~= pre.pending.take(seen + 1));
                        assert(self@.pending =~= pre.pending.skip(seen + 1));
                        assert(self@.delivered =~= pre.delivered + out@);
                    }
                },
                Recv::Empty => {
                    proof {
                        assert(false);
                    }
                },
                Recv::Drained => {
                    proof {
                        assert(false);
                    }
                },
            }
        }
        proof {
            assert(out@ =~= pre.pending);
            assert(self@.delivered =~= pre.delivered + pre.pending);
        }
        out
    }
}

impl<T> View for ThreadPool<T> {
    type V = PoolModel<T>;

    open spec fn view(&self) -> PoolModel<T> {
        self.model()
    }
}

} // verus!
