//! The two ends of a submitted task: the `Expectation` the caller keeps to
//! get the task's result, and the `TaskReport` that goes with the task to
//! the worker that runs it.
use crate::error::{ErrorKind, ExecutorError};
use crate::external::{
    channel, lemma_received, lemma_received_within, receive, receive_timeout, received,
    received_within, send,
};
use crate::task::{start_spec, TaskHandle, TaskStatus};
use crate::threadpool::Received;
use crossbeam_channel::{Receiver, RecvError, Sender};
use std::time::Duration;
use vstd::prelude::*;

verus! {

/// The message of an error for a result that was taken already.
pub open spec fn taken_message() -> Seq<char> {
    "Result is already taken.".view()
}

/// The message of an error for a task that panicked.
pub open spec fn panic_message() -> Seq<char> {
    "Function panic!".view()
}

/// The message of an error for a task whose result cannot come any more.
pub open spec fn ended_message() -> Seq<char> {
    "Cannot send message to worker thread, This threadpool is already dropped.".view()
}

/// The message of an error for a wait that ran out of time.
pub open spec fn timeout_message() -> Seq<char> {
    "Receive result timeout.".view()
}

/// The message of an error for a cancelled task.
pub open spec fn cancelled_message() -> Seq<char> {
    "The task is cancelled.".view()
}

/// An error is of `kind` with `message` and no cause.
pub open spec fn plain_error<C>(e: ExecutorError<C>, kind: ErrorKind, message: Seq<char>) -> bool {
    e@.kind == kind && e@.message == message && e@.cause is None
}

/// The error for a result that was taken already.
pub fn taken_error<C>() -> (e: ExecutorError<C>)
    ensures
        plain_error(e, ErrorKind::ResultAlreadyTaken, taken_message()),
{
    ExecutorError::new(ErrorKind::ResultAlreadyTaken, "Result is already taken.".to_owned())
}

/// The error for a cancelled task.
pub fn cancelled_error<C>() -> (e: ExecutorError<C>)
    ensures
        plain_error(e, ErrorKind::TaskCancelled, cancelled_message()),
{
    ExecutorError::new(ErrorKind::TaskCancelled, "The task is cancelled.".to_owned())
}

/// What a caller gets for what its task left: the value it returned, or a
/// `Panic` error carrying the payload it panicked with.
pub fn settle_outcome<T, C>(outcome: Result<T, C>) -> (r: Result<T, ExecutorError<C>>)
    ensures
        match outcome {
            Ok(v) => r == Ok::<T, ExecutorError<C>>(v),
            Err(c) => r matches Err(e) && e@.kind == ErrorKind::Panic && e@.message
                == panic_message() && e@.cause == Some(c),
        },
{
    match outcome {
        Ok(v) => Ok(v),
        Err(cause) => Err(
            ExecutorError::with_cause(ErrorKind::Panic, "Function panic!".to_owned(), cause),
        ),
    }
}

/// What a caller gets from a wait without a time limit: the task's outcome
/// when one came; otherwise `TaskCancelled` when the task is seen cancelled,
/// else `PoolEnded`.
pub fn settle_received<T, C>(
    received: Result<Result<T, C>, RecvError>,
    cancelled: bool,
) -> (r: Result<T, ExecutorError<C>>)
    ensures
        match received {
            Ok(Ok(v)) => r == Ok::<T, ExecutorError<C>>(v),
            Ok(Err(c)) => r matches Err(e) && e@.kind == ErrorKind::Panic && e@.message
                == panic_message() && e@.cause == Some(c),
            Err(_) => r matches Err(e) && (if cancelled {
                plain_error(e, ErrorKind::TaskCancelled, cancelled_message())
            } else {
                plain_error(e, ErrorKind::PoolEnded, ended_message())
            }),
        },
{
    match received {
        Ok(outcome) => settle_outcome(outcome),
        Err(_) => {
            if cancelled {
                Err(cancelled_error())
            } else {
                Err(
                    ExecutorError::new(
                        ErrorKind::PoolEnded,
                        "Cannot send message to worker thread, This threadpool is already dropped.".to_owned(),
                    ),
                )
            }
        },
    }
}

/// What a caller gets from a wait with a time limit: the task's outcome
/// when one came; otherwise `TaskCancelled` when the task is seen cancelled,
/// else `TimeOut`.
pub fn settle_received_timeout<T, C>(
    received: Result<Result<T, C>, Received>,
    cancelled: bool,
) -> (r: Result<T, ExecutorError<C>>)
    ensures
        match received {
            Ok(Ok(v)) => r == Ok::<T, ExecutorError<C>>(v),
            Ok(Err(c)) => r matches Err(e) && e@.kind == ErrorKind::Panic && e@.message
                == panic_message() && e@.cause == Some(c),
            Err(_) => r matches Err(e) && (if cancelled {
                plain_error(e, ErrorKind::TaskCancelled, cancelled_message())
            } else {
                plain_error(e, ErrorKind::TimeOut, timeout_message())
            }),
        },
{
    match received {
        Ok(outcome) => settle_outcome(outcome),
        Err(_) => {
            if cancelled {
                Err(cancelled_error())
            } else {
                Err(ExecutorError::new(ErrorKind::TimeOut, "Receive result timeout.".to_owned()))
            }
        },
    }
}

/// A caller's result is a `Panic` error with the panic message whose cause
/// is the payload the task panicked with.
pub open spec fn panic_error<C>(e: ExecutorError<C>) -> bool {
    e@.kind == ErrorKind::Panic && e@.message == panic_message() && e@.cause is Some
}

/// The caller's end of a submitted task: its result, once, and a way to
/// cancel it while it waits. `C` is the type of what a panicking task leaves.
#[verifier::reject_recursive_types(T)]
#[verifier::reject_recursive_types(C)]
pub struct Expectation<T, C> {
    task: TaskHandle,
    result_receiver: Option<Receiver<Result<T, C>>>,
    cancelled: bool,
}

/// The worker's end of a submitted task: it starts the task and delivers
/// what the task left.
#[verifier::reject_recursive_types(T)]
#[verifier::reject_recursive_types(C)]
pub struct TaskReport<T, C> {
    task: TaskHandle,
    result_sender: Sender<Result<T, C>>,
}

/// The two ends of a new task, which waits in line.
pub fn task_channel<T, C>() -> (r: (TaskReport<T, C>, Expectation<T, C>))
    ensures
        !r.1.result_taken(),
        !r.1.cancelled(),
        r.0.task().same_task(&r.1.task()),
{
    let (result_sender, result_receiver) = channel();
    let task = TaskHandle::new();
    let other = task.share();
    (
        TaskReport { task, result_sender },
        Expectation { task: other, result_receiver: Some(result_receiver), cancelled: false },
    )
}

impl<T, C> TaskReport<T, C> {
    /// The handle of the task.
    pub closed spec fn task(&self) -> TaskHandle {
        self.task
    }

    /// Starts the task if it still waits. Gives the status it saw and
    /// whether the task started, which is what `start_spec` gives for that
    /// status; a task that did not start (it was cancelled) must not run.
    pub fn begin(&self) -> (r: (TaskStatus, bool))
        ensures
            r.1 == start_spec(r.0).1,
    {
        self.task.try_start()
    }

    /// Marks the task done and delivers what it left to the caller. A
    /// caller that no longer waits does not receive it.
    pub fn complete(self, outcome: Result<T, C>) {
        let _ = self.task.finish();
        let _ = send(&self.result_sender, outcome);
    }
}

impl<T, C> Expectation<T, C> {
    /// The handle of the task.
    pub closed spec fn task(&self) -> TaskHandle {
        self.task
    }

    /// Whether the result was taken, or waited for, already.
    pub closed spec fn result_taken(&self) -> bool {
        self.result_receiver is None
    }

    /// The end on which the task's outcome arrives, until it is taken.
    pub closed spec fn receiver(&self) -> Option<Receiver<Result<T, C>>> {
        self.result_receiver
    }

    /// Whether a cancellation through this expectation succeeded, so that
    /// the task never runs.
    pub closed spec fn cancelled(&self) -> bool {
        self.cancelled
    }

    /// Waits for the task's result. It comes once: every later call gives a
    /// `ResultAlreadyTaken` error. A task cancelled through this expectation
    /// gives `TaskCancelled` at once, and only such a task; otherwise the
    /// result is the task's value, a `Panic` error carrying its payload, or
    /// `PoolEnded` when the result can no longer come.
    pub fn get_result(&mut self) -> (r: Result<T, ExecutorError<C>>)
        ensures
            final(self).result_taken(),
            final(self).task() == old(self).task(),
            final(self).cancelled() == old(self).cancelled(),
            old(self).result_taken() ==> (r matches Err(e) && plain_error(
                e,
                ErrorKind::ResultAlreadyTaken,
                taken_message(),
            )),
            !old(self).result_taken() && old(self).cancelled() ==> (r matches Err(e) && plain_error(
                e,
                ErrorKind::TaskCancelled,
                cancelled_message(),
            )),
            !old(self).result_taken() && !old(self).cancelled() ==> (r is Ok || (r matches Err(e)
                && (panic_error(e) || plain_error(e, ErrorKind::PoolEnded, ended_message())))),
            !old(self).result_taken() && !old(self).cancelled() ==> exists|
                res: Result<Result<T, C>, RecvError>,
            |
                #[trigger] received(&old(self).receiver()->0, res) && match res {
                    Ok(Ok(v)) => r == Ok::<T, ExecutorError<C>>(v),
                    Ok(Err(c)) => r matches Err(e) && e@.kind == ErrorKind::Panic && e@.message
                        == panic_message() && e@.cause == Some(c),
                    Err(_) => r matches Err(e) && plain_error(e, ErrorKind::PoolEnded, ended_message()),
                },
    {
        match self.result_receiver.take() {
            None => Err(taken_error()),
            Some(receiver) => {
                if self.cancelled {
                    return Err(cancelled_error());
                }
                let received = receive(&receiver);
                proof {
                    lemma_received(&receiver, received);
                }
                settle_received(received, false)
            },
        }
    }

    /// Waits at most `timeout` for the task's result. The wait happens once:
    /// every later call gives a `ResultAlreadyTaken` error. A task cancelled
    /// through this expectation gives `TaskCancelled` at once, and only such
    /// a task; otherwise the result is the task's value, a `Panic` error
    /// carrying its payload, or `TimeOut` when the wait gets no result.
    pub fn get_result_timeout(&mut self, timeout: Duration) -> (r: Result<T, ExecutorError<C>>)
        ensures
            final(self).result_taken(),
            final(self).task() == old(self).task(),
            final(self).cancelled() == old(self).cancelled(),
            old(self).result_taken() ==> (r matches Err(e) && plain_error(
                e,
                ErrorKind::ResultAlreadyTaken,
                taken_message(),
            )),
            !old(self).result_taken() && old(self).cancelled() ==> (r matches Err(e) && plain_error(
                e,
                ErrorKind::TaskCancelled,
                cancelled_message(),
            )),
            !old(self).result_taken() && !old(self).cancelled() ==> (r is Ok || (r matches Err(e)
                && (panic_error(e) || plain_error(e, ErrorKind::TimeOut, timeout_message())))),
            !old(self).result_taken() && !old(self).cancelled() ==> exists|
                res: Result<Result<T, C>, Received>,
            |
                #[trigger] received_within(&old(self).receiver()->0, timeout, res) && match res {
                    Ok(Ok(v)) => r == Ok::<T, ExecutorError<C>>(v),
                    Ok(Err(c)) => r matches Err(e) && e@.kind == ErrorKind::Panic && e@.message
                        == panic_message() && e@.cause == Some(c),
                    Err(_) => r matches Err(e) && plain_error(e, ErrorKind::TimeOut, timeout_message()),
                },
    {
        match self.result_receiver.take() {
            None => Err(taken_error()),
            Some(receiver) => {
                if self.cancelled {
                    return Err(cancelled_error());
                }
                let received = receive_timeout(&receiver, timeout);
                proof {
                    lemma_received_within(&receiver, timeout, received);
                }
                settle_received_timeout(received, false)
            },
        }
    }

    /// Cancels the task while it waits in line; a task that has started
    /// cannot be cancelled and gives a `TaskRunning` error. After a
    /// successful cancellation the task never runs, and its result is a
    /// `TaskCancelled` error.
    pub fn cancel(&mut self) -> (r: Result<(), ExecutorError<C>>)
        ensures
            final(self).task() == old(self).task(),
            final(self).result_taken() == old(self).result_taken(),
            old(self).cancelled() ==> r is Ok,
            r is Ok ==> final(self).cancelled(),
            r is Err ==> final(self).cancelled() == old(self).cancelled(),
            r matches Err(e) ==> plain_error(e, ErrorKind::TaskRunning, crate::task::running_message()),
            !old(self).cancelled() ==> exists|res: (TaskStatus, Result<(), ExecutorError<C>>)|
                #[trigger] call_ensures(TaskHandle::cancel::<C>, (&old(self).task(),), res) && r
                    == res.1,
    {
        if self.cancelled {
            return Ok(());
        }
        let outcome = self.task.cancel();
        assert(call_ensures(TaskHandle::cancel::<C>, (&old(self).task(),), outcome));
        let (_, r) = outcome;
        if r.is_ok() {
            self.cancelled = true;
        }
        r
    }
}

/// A timed wait reports what the task left: the value it returned, or a
/// `Panic` error carrying the very payload it panicked with; it gives
/// `TimeOut` only when the wait received nothing. This holds whether or not
/// the wait was the first thing done with the expectation, as long as the
/// result was not taken and the task was not cancelled through it.
pub proof fn lemma_timed_result_follows_outcome<T, C>(
    e: &mut Expectation<T, C>,
    timeout: Duration,
    r: Result<T, ExecutorError<C>>,
)
    requires
        call_ensures(Expectation::<T, C>::get_result_timeout, (e, timeout), r),
        !old(e).result_taken(),
        !old(e).cancelled(),
    ensures
        exists|res: Result<Result<T, C>, Received>|
            #[trigger] received_within(&old(e).receiver()->0, timeout, res) && (res matches Ok(Ok(v))
                ==> r == Ok::<T, ExecutorError<C>>(v)) && (res matches Ok(Err(c)) ==> (r matches Err(
                err) && err@.kind == ErrorKind::Panic && err@.cause == Some(c))) && (r matches Err(err)
                && err@.kind == ErrorKind::TimeOut ==> res is Err),
{
}

/// An untimed wait reports what the task left: the value it returned, or a
/// `Panic` error carrying the very payload it panicked with; it gives
/// `PoolEnded` only when the wait reported the task's end disconnected.
pub proof fn lemma_result_follows_outcome<T, C>(e: &mut Expectation<T, C>, r: Result<T, ExecutorError<C>>)
    requires
        call_ensures(Expectation::<T, C>::get_result, (e,), r),
        !old(e).result_taken(),
        !old(e).cancelled(),
    ensures
        exists|res: Result<Result<T, C>, RecvError>|
            #[trigger] received(&old(e).receiver()->0, res) && (res matches Ok(Ok(v)) ==> r == Ok::<
                T,
                ExecutorError<C>,
            >(v)) && (res matches Ok(Err(c)) ==> (r matches Err(err) && err@.kind == ErrorKind::Panic
                && err@.cause == Some(c))) && (r matches Err(err) && err@.kind == ErrorKind::PoolEnded
                ==> res is Err),
{
}

/// Cancelling through an expectation is decided by the task's shared status
/// alone, not by whether the result was waited for: the first successful
/// cancellation is the one of a task seen waiting (or cancelled already),
/// and a `TaskRunning` refusal comes only for a task seen running or done.
/// Once it succeeded, cancelling again succeeds too.
pub proof fn lemma_cancel_follows_status<T, C>(e: &mut Expectation<T, C>, r: Result<(), ExecutorError<C>>)
    requires
        call_ensures(Expectation::<T, C>::cancel, (e,), r),
    ensures
        old(e).cancelled() ==> r is Ok,
        !old(e).cancelled() ==> exists|res: (TaskStatus, Result<(), ExecutorError<C>>)|
            #[trigger] call_ensures(TaskHandle::cancel::<C>, (&old(e).task(),), res) && r == res.1 && (
            res.0 == TaskStatus::Queued ==> r is Ok) && (r is Err ==> (res.0 == TaskStatus::Running
                || res.0 == TaskStatus::Done)),
{
    if !old(e).cancelled() {
        let res = choose|res: (TaskStatus, Result<(), ExecutorError<C>>)|
            #[trigger] call_ensures(TaskHandle::cancel::<C>, (&old(e).task(),), res) && r == res.1;
        crate::task::lemma_handle_cancel_outcome::<C>(&old(e).task(), res);
    }
}

} // verus!
