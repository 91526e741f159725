//! A bounded worker-pool task executor.
//!
//! A fixed set of workers drains a shared task channel; submission enqueues a
//! task without blocking, and shutdown closes intake, lets the workers drain
//! the backlog, and retires them. The scheduling core — the channel's queuing
//! discipline, the pool lifecycle, and the worker state machine — is verified
//! here against an abstract pool model; the thread plumbing that blocks,
//! wakes, and joins lives outside the verified core and only drives it.

pub mod channel;
pub mod laws;
pub mod pool;
pub mod worker;

pub use channel::Recv;
pub use channel::TaskChannel;
pub use pool::BuildError;
pub use pool::PoolModel;
pub use pool::SubmitError;
pub use pool::ThreadPool;
pub use worker::WorkerEvent;
pub use worker::WorkerPhase;
pub use worker::worker_step;
