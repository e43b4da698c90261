//! A fixed-size worker pool, split into its decisions and its threads.
//!
//! The modules here hold what the pool decides: the closable job queue that
//! hands each job to exactly one worker, the step a worker takes on what the
//! queue answers, and the pool's lifecycle from construction to the last join.
//! Spawning, blocking and joining threads is left to the caller.

mod pool;
mod queue;
mod worker;

pub use pool::PoolPlan;
pub use queue::{JobQueue, Recv};
pub use worker::{Action, Worker, WorkerState};
