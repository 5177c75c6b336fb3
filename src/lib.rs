//! The decisions of a fixed-size worker pool, verified: how a pool is built,
//! where a submitted job goes, what a worker does with what it receives, and
//! how the pool shuts down. The pool is generic over the sending end of its
//! job queue and over the handle of a worker's thread, so that whoever runs
//! the threads supplies both.
pub mod http;
pub mod pool;
pub mod worker;

pub use pool::{ThreadPool, ThreadPoolError};
pub use worker::{next_action, Worker, WorkerAction};
