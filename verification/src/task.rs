//! The life of a submitted task: it waits in line, then either runs and
//! finishes or is cancelled before it starts. The two sides of a task (the
//! caller's `Expectation` and the worker's `TaskReport`) share its status.
use crate::error::{ErrorKind, ExecutorError};
use crate::external::{exchange_if, share};
use std::sync::atomic::{AtomicU8, Ordering};
use std::sync::Arc;
use vstd::prelude::*;

verus! {

/// Where a task stands.
#[derive(Debug, Clone, Copy, PartialEq, Eq, Structural)]
pub enum TaskStatus {
    /// Waiting in line.
    Queued,
    /// Taken by a worker (or by the caller) and running.
    Running,
    /// Finished running.
    Done,
    /// Cancelled while it waited; it never runs.
    Cancelled,
}

/// The code under which a status is stored.
pub open spec fn status_code(s: TaskStatus) -> u8 {
    match s {
        TaskStatus::Queued => 0,
        TaskStatus::Running => 1,
        TaskStatus::Done => 2,
        TaskStatus::Cancelled => 3,
    }
}

/// The status a stored code stands for; codes above the last one read as
/// `Cancelled`.
pub open spec fn status_of(c: u8) -> TaskStatus {
    if c == 0 {
        TaskStatus::Queued
    } else if c == 1 {
        TaskStatus::Running
    } else if c == 2 {
        TaskStatus::Done
    } else {
        TaskStatus::Cancelled
    }
}

/// A cancellation: a waiting task becomes cancelled; cancelling a cancelled
/// task changes nothing; a task that has started cannot be cancelled.
pub open spec fn cancel_spec(s: TaskStatus) -> (TaskStatus, Result<(), ErrorKind>) {
    match s {
        TaskStatus::Queued => (TaskStatus::Cancelled, Ok(())),
        TaskStatus::Cancelled => (TaskStatus::Cancelled, Ok(())),
        TaskStatus::Running => (TaskStatus::Running, Err(ErrorKind::TaskRunning)),
        TaskStatus::Done => (TaskStatus::Done, Err(ErrorKind::TaskRunning)),
    }
}

/// A start: only a waiting task starts.
pub open spec fn start_spec(s: TaskStatus) -> (TaskStatus, bool) {
    match s {
        TaskStatus::Queued => (TaskStatus::Running, true),
        _ => (s, false),
    }
}

/// The end of a run: a running task is done; nothing else changes.
pub open spec fn finish_spec(s: TaskStatus) -> TaskStatus {
    match s {
        TaskStatus::Running => TaskStatus::Done,
        _ => s,
    }
}

/// The message of a refused cancellation.
pub open spec fn running_message() -> Seq<char> {
    "The task has already started.".view()
}

impl TaskStatus {
    pub fn code(self) -> (c: u8)
        ensures
            c == status_code(self),
    {
        match self {
            TaskStatus::Queued => 0,
            TaskStatus::Running => 1,
            TaskStatus::Done => 2,
            TaskStatus::Cancelled => 3,
        }
    }

    pub fn from_code(c: u8) -> (s: TaskStatus)
        ensures
            s == status_of(c),
    {
        if c == 0 {
            TaskStatus::Queued
        } else if c == 1 {
            TaskStatus::Running
        } else if c == 2 {
            TaskStatus::Done
        } else {
            TaskStatus::Cancelled
        }
    }

    /// Cancels a task that stands at `self`: the new status, and `Ok` or a
    /// `TaskRunning` error.
    pub fn cancel<C>(self) -> (r: (TaskStatus, Result<(), ExecutorError<C>>))
        ensures
            r.0 == cancel_spec(self).0,
            match (r.1, cancel_spec(self).1) {
                (Ok(()), Ok(())) => true,
                (Err(e), Err(k)) => e@.kind == k && e@.message == running_message()
                    && e@.cause is None,
                _ => false,
            },
    {
        match self {
            TaskStatus::Queued => (TaskStatus::Cancelled, Ok(())),
            TaskStatus::Cancelled => (TaskStatus::Cancelled, Ok(())),
            _ => (
                self,
                Err(
                    ExecutorError::new(
                        ErrorKind::TaskRunning,
                        "The task has already started.".to_owned(),
                    ),
                ),
            ),
        }
    }

    /// Starts a task that stands at `self`: the new status and whether it
    /// started.
    pub fn start(self) -> (r: (TaskStatus, bool))
        ensures
            r == start_spec(self),
    {
        match self {
            TaskStatus::Queued => (TaskStatus::Running, true),
            _ => (self, false),
        }
    }

    /// Ends the run of a task that stands at `self`.
    pub fn finish(self) -> (s: TaskStatus)
        ensures
            s == finish_spec(self),
    {
        match self {
            TaskStatus::Running => TaskStatus::Done,
            _ => self,
        }
    }
}

/// Every status is read back from its code.
pub proof fn lemma_code_round_trip(s: TaskStatus)
    ensures
        status_of(status_code(s)) == s,
{
}

/// A task that was cancelled never starts.
pub proof fn lemma_cancelled_never_starts(s: TaskStatus)
    requires
        cancel_spec(s).1 is Ok,
    ensures
        !start_spec(cancel_spec(s).0).1,
        start_spec(cancel_spec(s).0).0 == TaskStatus::Cancelled,
{
}

/// A task that has started cannot be cancelled, neither while it runs nor
/// after it is done.
pub proof fn lemma_started_never_cancelled(s: TaskStatus)
    requires
        start_spec(s).1,
    ensures
        cancel_spec(start_spec(s).0) == (TaskStatus::Running, Err::<(), ErrorKind>(ErrorKind::TaskRunning)),
        cancel_spec(finish_spec(start_spec(s).0)) == (TaskStatus::Done, Err::<(), ErrorKind>(ErrorKind::TaskRunning)),
{
}

/// Of a start and a cancellation of a waiting task, whichever comes first
/// succeeds and the other fails.
pub proof fn lemma_first_of_start_and_cancel_wins()
    ensures
        start_spec(TaskStatus::Queued).1,
        cancel_spec(start_spec(TaskStatus::Queued).0).1 is Err,
        cancel_spec(TaskStatus::Queued).1 is Ok,
        !start_spec(cancel_spec(TaskStatus::Queued).0).1,
{
}

/// A cancellation through a handle succeeds exactly when the status it saw
/// was waiting or cancelled already, and a refusal comes only when the task
/// had left the line (it runs or is done), whatever else is known of the
/// task.
pub proof fn lemma_handle_cancel_outcome<C>(h: &TaskHandle, res: (TaskStatus, Result<(), ExecutorError<C>>))
    requires
        call_ensures(TaskHandle::cancel::<C>, (h,), res),
    ensures
        res.0 == TaskStatus::Queued ==> res.1 is Ok,
        res.1 is Ok <==> (res.0 == TaskStatus::Queued || res.0 == TaskStatus::Cancelled),
        res.1 matches Err(e) ==> (res.0 == TaskStatus::Running || res.0 == TaskStatus::Done)
            && e@.kind == ErrorKind::TaskRunning,
{
}

/// The status of a task, shared between the side that waits for its result
/// and the side that runs it.
pub struct TaskHandle {
    status: Arc<AtomicU8>,
}

impl TaskHandle {
    /// A handle of a task that waits in line.
    pub fn new() -> (h: TaskHandle) {
        TaskHandle { status: Arc::new(AtomicU8::new(TaskStatus::Queued.code())) }
    }

    /// Whether two handles are handles of one task.
    pub closed spec fn same_task(&self, other: &TaskHandle) -> bool {
        self.status == other.status
    }

    /// A second handle of the same task.
    pub fn share(&self) -> (h: TaskHandle)
        ensures
            h.same_task(self),
            self.same_task(&h),
    {
        TaskHandle { status: share(&self.status) }
    }

    /// The status of the task as it is seen now.
    pub fn status(&self) -> (s: TaskStatus) {
        let c = self.status.load(Ordering::SeqCst);
        TaskStatus::from_code(c)
    }

    /// Starts the task if it still waits. Gives the status it saw and
    /// whether the task started, which is what `start_spec` gives for that
    /// status.
    pub fn try_start(&self) -> (r: (TaskStatus, bool))
        ensures
            r.1 == start_spec(r.0).1,
    {
        match exchange_if(&self.status, TaskStatus::Queued.code(), TaskStatus::Running.code()) {
            Ok(c) => (TaskStatus::from_code(c), true),
            Err(c) => (TaskStatus::from_code(c), false),
        }
    }

    /// Marks the task done if it runs. Gives the status it saw and the
    /// status it left behind, which is what `finish_spec` gives for the one
    /// it saw: `Done` after `Running`, otherwise the status unchanged.
    pub fn finish(&self) -> (r: (TaskStatus, TaskStatus))
        ensures
            r.1 == finish_spec(r.0),
    {
        match exchange_if(&self.status, TaskStatus::Running.code(), TaskStatus::Done.code()) {
            Ok(c) => (TaskStatus::from_code(c), TaskStatus::Done),
            Err(c) => {
                let seen = TaskStatus::from_code(c);
                (seen, seen)
            },
        }
    }

    /// Cancels the task if it still waits. Gives the status it saw and the
    /// result that `cancel_spec` gives for that status: `Ok` when the task
    /// waited or was cancelled already, a `TaskRunning` error when it had
    /// started.
    pub fn cancel<C>(&self) -> (r: (TaskStatus, Result<(), ExecutorError<C>>))
        ensures
            match (r.1, cancel_spec(r.0).1) {
                (Ok(()), Ok(())) => true,
                (Err(e), Err(k)) => e@.kind == k && e@.message == running_message()
                    && e@.cause is None,
                _ => false,
            },
    {
        match exchange_if(&self.status, TaskStatus::Queued.code(), TaskStatus::Cancelled.code()) {
            Ok(c) => (TaskStatus::from_code(c), Ok(())),
            Err(c) => {
                let seen = TaskStatus::from_code(c);
                let (_, r) = seen.cancel();
                (seen, r)
            },
        }
    }
}

} // verus!
