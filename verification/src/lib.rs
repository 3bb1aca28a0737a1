//! A thread pool whose bookkeeping, admission policy and task protocol are
//! verified: the pool's counts and workers, the decision taken for each
//! submitted task, what each worker reports, and how a task's result or
//! cancellation reaches its caller.
pub mod error;
pub mod expectation;
pub mod external;
pub mod task;
pub mod threadpool;

pub use error::{ErrorKind, ExecutorError};
pub use expectation::{task_channel, Expectation, TaskReport};
