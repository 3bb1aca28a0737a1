use std::time::Duration;
use threadpool_executor::expectation::{settle_outcome, settle_received, settle_received_timeout};
use threadpool_executor::task::{TaskHandle, TaskStatus};
use threadpool_executor::threadpool::Received;
use std::any::Any;
use threadpool_executor::{task_channel, ErrorKind, ExecutorError};

type Payload = Box<dyn Any + Send>;

#[test]
fn result_comes_once() {
    let (report, mut exp) = task_channel::<i32, ()>();
    assert!(report.begin().1);
    report.complete(Ok(3));
    assert_eq!(exp.get_result().ok(), Some(3));
    let e = exp.get_result().err().unwrap();
    assert_eq!(*e.kind(), ErrorKind::ResultAlreadyTaken);
    assert_eq!(e.message(), "Result is already taken.");
}

#[test]
fn test_panic() {
    let (report, mut exp) = task_channel::<(), Payload>();
    assert!(report.begin().1);
    let payload: Payload = Box::new("panic!!!");
    report.complete(Err(payload));
    let e = exp.get_result().err().unwrap();
    assert_eq!(*e.kind(), ErrorKind::Panic);
    assert_eq!(e.message(), "Function panic!");
    let cause = e.cause().as_ref().unwrap();
    assert_eq!(cause.downcast_ref::<&str>(), Some(&"panic!!!"));
    let (report, mut exp) = task_channel::<&'static str, Payload>();
    assert!(report.begin().1);
    report.complete(Ok("abc"));
    assert_eq!(exp.get_result().ok(), Some("abc"));
}

#[test]
fn test_timeout() {
    let (report, mut exp) = task_channel::<(), ()>();
    let e = exp.get_result_timeout(Duration::from_secs(1)).err().unwrap();
    assert_eq!(*e.kind(), ErrorKind::TimeOut);
    assert_eq!(e.message(), "Receive result timeout.");
    let e = exp.get_result_timeout(Duration::from_millis(20)).err().unwrap();
    assert_eq!(*e.kind(), ErrorKind::ResultAlreadyTaken);
    drop(report);
}

#[test]
fn timeout_wait_gets_result() {
    let (report, mut exp) = task_channel::<u8, ()>();
    assert!(report.begin().1);
    report.complete(Ok(7));
    assert_eq!(exp.get_result_timeout(Duration::from_secs(1)).ok(), Some(7));
}

#[test]
fn pool_ended_when_task_dropped() {
    let (report, mut exp) = task_channel::<u8, ()>();
    drop(report);
    let e = exp.get_result().err().unwrap();
    assert_eq!(*e.kind(), ErrorKind::PoolEnded);
    assert_eq!(
        e.message(),
        "Cannot send message to worker thread, This threadpool is already dropped."
    );
}

#[test]
fn cancel_while_waiting() {
    let (report, mut exp) = task_channel::<u8, ()>();
    assert!(exp.cancel().is_ok());
    assert!(exp.cancel().is_ok());
    assert_eq!(report.begin(), (TaskStatus::Cancelled, false));
    let e = exp.get_result().err().unwrap();
    assert_eq!(*e.kind(), ErrorKind::TaskCancelled);
    assert_eq!(e.message(), "The task is cancelled.");
}

#[test]
fn cancel_after_start_refused() {
    let (report, mut exp) = task_channel::<u8, ()>();
    assert!(report.begin().1);
    let e = exp.cancel().err().unwrap();
    assert_eq!(*e.kind(), ErrorKind::TaskRunning);
    assert_eq!(e.message(), "The task has already started.");
    report.complete(Ok(1));
    let e = exp.cancel().err().unwrap();
    assert_eq!(*e.kind(), ErrorKind::TaskRunning);
    assert_eq!(exp.get_result().ok(), Some(1));
}

#[test]
fn handle_status_follows_the_task() {
    let h = TaskHandle::new();
    let other = h.share();
    assert_eq!(h.status(), TaskStatus::Queued);
    assert_eq!(other.try_start(), (TaskStatus::Queued, true));
    assert_eq!(h.status(), TaskStatus::Running);
    assert_eq!(h.try_start(), (TaskStatus::Running, false));
    assert_eq!(h.finish(), (TaskStatus::Running, TaskStatus::Done));
    assert_eq!(other.status(), TaskStatus::Done);
    assert_eq!(h.finish(), (TaskStatus::Done, TaskStatus::Done));
    let (seen, r) = h.cancel::<()>();
    assert_eq!(seen, TaskStatus::Done);
    assert_eq!(*r.err().unwrap().kind(), ErrorKind::TaskRunning);
    let c = TaskHandle::new();
    let (seen, r) = c.cancel::<()>();
    assert_eq!(seen, TaskStatus::Queued);
    assert!(r.is_ok());
    assert_eq!(c.try_start(), (TaskStatus::Cancelled, false));
    assert_eq!(c.status(), TaskStatus::Cancelled);
}

#[test]
fn status_steps() {
    for s in [TaskStatus::Queued, TaskStatus::Running, TaskStatus::Done, TaskStatus::Cancelled] {
        assert_eq!(TaskStatus::from_code(s.code()), s);
    }
    assert_eq!(TaskStatus::Queued.code(), 0);
    assert_eq!(TaskStatus::Cancelled.code(), 3);
    assert_eq!(TaskStatus::from_code(9), TaskStatus::Cancelled);
    assert_eq!(TaskStatus::Queued.start(), (TaskStatus::Running, true));
    assert_eq!(TaskStatus::Cancelled.start(), (TaskStatus::Cancelled, false));
    assert_eq!(TaskStatus::Running.finish(), TaskStatus::Done);
    assert_eq!(TaskStatus::Queued.finish(), TaskStatus::Queued);
    let (s, r) = TaskStatus::Queued.cancel::<()>();
    assert_eq!(s, TaskStatus::Cancelled);
    assert!(r.is_ok());
    let (s, r) = TaskStatus::Done.cancel::<()>();
    assert_eq!(s, TaskStatus::Done);
    assert_eq!(*r.err().unwrap().kind(), ErrorKind::TaskRunning);
}

#[test]
fn settle_functions() {
    assert_eq!(settle_outcome::<u8, ()>(Ok(5)).ok(), Some(5));
    let e = settle_outcome::<u8, u32>(Err(7)).err().unwrap();
    assert_eq!(*e.kind(), ErrorKind::Panic);
    assert_eq!(e.cause(), &Some(7));
    let e = settle_received::<u8, ()>(Err(crossbeam_channel::RecvError), true).err().unwrap();
    assert_eq!(*e.kind(), ErrorKind::TaskCancelled);
    let e = settle_received::<u8, ()>(Err(crossbeam_channel::RecvError), false).err().unwrap();
    assert_eq!(*e.kind(), ErrorKind::PoolEnded);
    assert_eq!(settle_received::<u8, ()>(Ok(Ok(2)), true).ok(), Some(2));
    let e = settle_received_timeout::<u8, ()>(
        Err(Received::Disconnected),
        false,
    )
    .err()
    .unwrap();
    assert_eq!(*e.kind(), ErrorKind::TimeOut);
    let e = settle_received_timeout::<u8, u32>(Ok(Err(9)), false).err().unwrap();
    assert_eq!(*e.kind(), ErrorKind::Panic);
}

#[test]
fn error_texts() {
    assert_eq!(ErrorKind::PoolEnded.to_string(), "\"PoolEnded\"");
    assert_eq!(ErrorKind::TaskRunning.to_string(), "\"TaskStarted\"");
    assert_eq!(ErrorKind::TimeOut.to_string(), "\"TimeOUt\"");
    assert_eq!(ErrorKind::TaskRunning.label(), "TaskStarted");
    let e: ExecutorError<()> = ExecutorError::new(ErrorKind::TaskRejected, "full".to_string());
    assert_eq!(e.to_string(), "ExecutorError [kind: \"TaskRejected\", message: full]");
    assert!(e.cause().is_none());
    let e = ExecutorError::with_cause(ErrorKind::Panic, "boom".to_string(), 3u8);
    assert_eq!(*e.kind(), ErrorKind::Panic);
    assert_eq!(e.message(), "boom");
    assert_eq!(e.cause(), &Some(3u8));
}

#[test]
fn cancelled_expectation_gives_cancelled_result() {
    let (report, mut exp) = task_channel::<u8, ()>();
    assert!(exp.cancel().is_ok());
    let e = exp
        .get_result_timeout(Duration::from_millis(10))
        .err()
        .unwrap();
    assert_eq!(*e.kind(), ErrorKind::TaskCancelled);
    assert_eq!(report.begin(), (TaskStatus::Cancelled, false));
}
