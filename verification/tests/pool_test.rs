use std::time::Duration;
use threadpool_executor::threadpool::{
    next_job, worker_report, Admission, Builder, ExceedLimitPolicy, PoolConfig, PoolState, Received,
    WorkerStatus, DEFAULT_KEEP_ALIVE_SECS,
};
use threadpool_executor::{task_channel, ErrorKind};

fn pool(core: usize, max: usize, policy: ExceedLimitPolicy) -> PoolState<usize> {
    let config = Builder::new()
        .core_pool_size(core)
        .maximum_pool_size(max)
        .exeed_limit_policy(policy)
        .build();
    PoolState::create(config, |id, _| id)
}

#[test]
fn builder_defaults() {
    let c = Builder::new().build();
    assert_eq!(c.core_size, 0);
    assert_eq!(c.max_size, usize::MAX);
    assert_eq!(c.policy, ExceedLimitPolicy::Wait);
    assert_eq!(c.keep_alive_time, Some(Duration::from_secs(300)));
    assert_eq!(DEFAULT_KEEP_ALIVE_SECS, 300);
}

#[test]
fn builder_settings() {
    let c = Builder::new()
        .core_pool_size(1)
        .maximum_pool_size(3)
        .keep_alive_time(Duration::from_secs(60))
        .exeed_limit_policy(ExceedLimitPolicy::CallerRuns)
        .build();
    assert_eq!(c.core_size, 1);
    assert_eq!(c.max_size, 3);
    assert_eq!(c.policy, ExceedLimitPolicy::CallerRuns);
    assert_eq!(c.keep_alive_time, Some(Duration::from_secs(60)));
}

#[test]
fn builder_refuses_zero_keep_alive() {
    let r = Builder::new().core_pool_size(2).try_keep_alive_time(Duration::from_secs(0));
    let b = match r {
        Ok(_) => panic!("a zero keep-alive time was accepted"),
        Err(b) => b,
    };
    let c = b.build();
    assert_eq!(c.core_size, 2);
    assert_eq!(c.keep_alive_time, Some(Duration::from_secs(300)));
    let c = Builder::new()
        .try_keep_alive_time(Duration::from_millis(5))
        .ok()
        .unwrap()
        .build();
    assert_eq!(c.keep_alive_time, Some(Duration::from_millis(5)));
}

#[test]
fn fixed_config() {
    let c = PoolConfig::fixed(4);
    assert_eq!(c.core_size, 4);
    assert_eq!(c.max_size, 4);
    assert_eq!(c.policy, ExceedLimitPolicy::Wait);
    assert_eq!(c.keep_alive_time, None);
}

#[test]
fn create_starts_core_workers() {
    let mut ids = std::cell::RefCell::new(Vec::new());
    let s: PoolState<usize> = PoolState::create(PoolConfig::fixed(3), |id, keep| {
        ids.borrow_mut().push((id, keep));
        id * 10
    });
    assert_eq!(ids.get_mut().clone(), vec![(0, None), (1, None), (2, None)]);
    assert_eq!(s.size(), 3);
    assert_eq!(s.working(), 0);
    assert_eq!(s.max_size(), 3);
    assert!(s.has_worker(0) && s.has_worker(2));
    assert!(!s.has_worker(3));
}

#[test]
fn test_reject() {
    let mut s = pool(1, 1, ExceedLimitPolicy::Reject);
    assert_eq!(s.submit::<(), _>(|id, _| id).ok(), Some(Admission::Enqueue));
    let e = s.submit::<(), _>(|id, _| id).err().unwrap();
    assert_eq!(*e.kind(), ErrorKind::TaskRejected);
    assert_eq!(e.message(), "Working tasks reaches to the limit.");
    assert!(e.cause().is_none());
    assert_eq!(s.working(), 1);
    assert_eq!(s.size(), 1);
}

#[test]
fn test() {
    let config = Builder::new()
        .core_pool_size(1)
        .maximum_pool_size(3)
        .keep_alive_time(Duration::from_secs(300))
        .exeed_limit_policy(ExceedLimitPolicy::CallerRuns)
        .build();
    let mut s: PoolState<usize> = PoolState::create(config, |id, _| id);
    let (tx, rx) = crossbeam_channel::unbounded::<Box<dyn FnOnce()>>();
    let mut expectations = std::collections::VecDeque::new();
    let mut spawned = Vec::new();
    let mut decisions = Vec::new();
    let e = 10;
    for i in 0..e {
        let (report, exp) = task_channel::<i32, ()>();
        let job: Box<dyn FnOnce()> = Box::new(move || {
            if report.begin().1 {
                report.complete(Ok(i));
            }
        });
        let (d, back) = s
            .execute::<(), _, _>(&tx, job, |id, keep| {
                spawned.push((id, keep));
                id
            })
            .ok()
            .unwrap();
        if let Some(job) = back {
            job();
        }
        decisions.push(d);
        expectations.push_back(exp);
    }
    while let Ok(job) = rx.try_recv() {
        job();
    }
    for i in 0..e {
        let mut exp = expectations.pop_front().unwrap();
        assert_eq!(exp.get_result().ok(), Some(i));
    }
    let mut expected = vec![
        Admission::Enqueue,
        Admission::SpawnAndEnqueue(1),
        Admission::SpawnAndEnqueue(2),
    ];
    expected.extend(std::iter::repeat(Admission::RunInCaller).take(7));
    assert_eq!(decisions, expected);
    assert_eq!(
        spawned,
        vec![
            (1, Some(Duration::from_secs(300))),
            (2, Some(Duration::from_secs(300)))
        ]
    );
    assert_eq!(s.size(), 3);
    assert_eq!(s.working(), 3);

    let (report, mut f) = task_channel::<&'static str, ()>();
    let job: Box<dyn FnOnce()> = Box::new(move || {
        if report.begin().1 {
            report.complete(Ok("abc"));
        }
    });
    let (d, back) = s.execute::<(), _, _>(&tx, job, |id, _| id).ok().unwrap();
    assert_eq!(d, Admission::RunInCaller);
    back.unwrap()();
    assert_eq!(f.get_result().ok(), Some("abc"));
}

#[test]
fn core_workers_leave_only_at_shutdown() {
    let config = Builder::new()
        .core_pool_size(2)
        .maximum_pool_size(3)
        .keep_alive_time(Duration::from_secs(1))
        .build();
    let mut s: PoolState<usize> = PoolState::create(config, |id, _| id);
    s.submit::<(), _>(|id, _| id).ok().unwrap();
    s.submit::<(), _>(|id, _| id).ok().unwrap();
    assert_eq!(s.submit::<(), _>(|id, _| id).ok(), Some(Admission::SpawnAndEnqueue(2)));
    assert!(!s.accepts(0, WorkerStatus::ThreadExit));
    assert!(!s.accepts(1, WorkerStatus::ThreadExit));
    assert!(s.accepts(2, WorkerStatus::ThreadExit));
    s.on_status(2, WorkerStatus::ThreadExit);
    assert_eq!(s.size(), 2);
    s.close();
    assert!(s.accepts(0, WorkerStatus::ThreadExit));
    assert_eq!(s.on_status(0, WorkerStatus::ThreadExit), Some(0));
    assert_eq!(s.on_status(1, WorkerStatus::ThreadExit), Some(1));
    assert_eq!(s.size(), 0);
}

#[test]
fn fixed_pool_keeps_its_workers() {
    let mut s: PoolState<usize> = PoolState::create(PoolConfig::fixed(2), |id, _| id);
    for _ in 0..5 {
        assert_eq!(s.submit::<(), _>(|id, _| id).ok(), Some(Admission::Enqueue));
    }
    assert_eq!(s.size(), 2);
    assert!(!s.accepts(0, WorkerStatus::ThreadExit));
    assert!(!s.accepts(1, WorkerStatus::ThreadExit));
}

#[test]
fn wait_puts_everything_in_line() {
    let mut s = pool(1, 1, ExceedLimitPolicy::Wait);
    for _ in 0..4 {
        assert_eq!(s.submit::<(), _>(|id, _| id).ok(), Some(Admission::Enqueue));
    }
    assert_eq!(s.working(), 4);
    assert_eq!(s.size(), 1);
}

#[test]
fn idle_worker_takes_task_without_spawn() {
    let mut s = pool(2, 4, ExceedLimitPolicy::Wait);
    assert_eq!(s.submit::<(), _>(|id, _| id).ok(), Some(Admission::Enqueue));
    assert_eq!(s.submit::<(), _>(|id, _| id).ok(), Some(Admission::Enqueue));
    assert_eq!(s.submit::<(), _>(|id, _| id).ok(), Some(Admission::SpawnAndEnqueue(2)));
    assert_eq!(s.size(), 3);
}

#[test]
fn test_worker_exit() {
    let config = Builder::new()
        .core_pool_size(1)
        .maximum_pool_size(2)
        .keep_alive_time(Duration::from_secs(1))
        .build();
    let mut s: PoolState<usize> = PoolState::create(config, |id, _| id + 100);
    assert_eq!(s.submit::<(), _>(|id, _| id + 100).ok(), Some(Admission::Enqueue));
    assert_eq!(
        s.submit::<(), _>(|id, _| id + 100).ok(),
        Some(Admission::SpawnAndEnqueue(1))
    );
    assert!(s.accepts(0, WorkerStatus::JobDone));
    assert_eq!(s.on_status(0, WorkerStatus::JobDone), None);
    assert_eq!(s.on_status(1, WorkerStatus::JobDone), None);
    assert_eq!(s.working(), 0);
    assert!(!s.accepts(1, WorkerStatus::JobDone));
    assert!(s.accepts(1, WorkerStatus::ThreadExit));
    assert_eq!(s.on_status(1, WorkerStatus::ThreadExit), Some(101));
    assert_eq!(s.size(), 1);
    assert!(!s.has_worker(1));
    assert!(!s.accepts(1, WorkerStatus::ThreadExit));
}

#[test]
fn spawned_id_is_fresh_after_exit() {
    let mut s = pool(1, 2, ExceedLimitPolicy::Wait);
    s.submit::<(), _>(|id, _| id).ok().unwrap();
    assert_eq!(s.submit::<(), _>(|id, _| id).ok(), Some(Admission::SpawnAndEnqueue(1)));
    s.on_status(1, WorkerStatus::JobDone);
    s.on_status(1, WorkerStatus::ThreadExit);
    assert_eq!(s.submit::<(), _>(|id, _| id).ok(), Some(Admission::SpawnAndEnqueue(2)));
    assert!(s.has_worker(2) && !s.has_worker(1));
}

#[test]
fn has_room_on_fresh_pool() {
    let s = pool(0, 1, ExceedLimitPolicy::Wait);
    assert!(s.has_room());
    assert_eq!(s.size(), 0);
}

#[test]
fn workers_report() {
    assert_eq!(worker_report(Received::Job), WorkerStatus::JobDone);
    assert_eq!(worker_report(Received::TimedOut), WorkerStatus::ThreadExit);
    assert_eq!(worker_report(Received::Disconnected), WorkerStatus::ThreadExit);
}

#[test]
fn can_build_checks_sizes() {
    assert!(Builder::new().can_build());
    assert!(Builder::new().core_pool_size(3).maximum_pool_size(3).can_build());
    assert!(!Builder::new().core_pool_size(4).maximum_pool_size(3).can_build());
    assert!(Builder::new().core_pool_size(usize::MAX).can_build());
}

#[test]
fn execute_puts_job_in_queue() {
    let (tx, rx) = crossbeam_channel::unbounded::<u32>();
    let mut s = pool(1, 2, ExceedLimitPolicy::Reject);
    let r = s.execute::<(), _, _>(&tx, 7, |id, _| id).ok().unwrap();
    assert_eq!(r, (Admission::Enqueue, None));
    let r = s.execute::<(), _, _>(&tx, 8, |id, _| id).ok().unwrap();
    assert_eq!(r, (Admission::SpawnAndEnqueue(1), None));
    let e = s.execute::<(), _, _>(&tx, 9, |id, _| id).err().unwrap();
    assert_eq!(*e.kind(), ErrorKind::TaskRejected);
    assert_eq!(rx.try_recv(), Ok(7));
    assert_eq!(rx.try_recv(), Ok(8));
    assert!(rx.try_recv().is_err());
}

#[test]
fn execute_hands_back_job_for_caller() {
    let (tx, _rx) = crossbeam_channel::unbounded::<u32>();
    let mut s = pool(0, 1, ExceedLimitPolicy::CallerRuns);
    assert_eq!(
        s.execute::<(), _, _>(&tx, 1, |id, _| id).ok().unwrap(),
        (Admission::SpawnAndEnqueue(0), None)
    );
    assert_eq!(
        s.execute::<(), _, _>(&tx, 2, |id, _| id).ok().unwrap(),
        (Admission::RunInCaller, Some(2))
    );
    assert_eq!(s.working(), 1);
}

#[test]
fn execute_without_reader_ends() {
    let (tx, rx) = crossbeam_channel::unbounded::<u32>();
    drop(rx);
    let mut s = pool(1, 1, ExceedLimitPolicy::Wait);
    let e = s.execute::<(), _, _>(&tx, 1, |id, _| id).err().unwrap();
    assert_eq!(*e.kind(), ErrorKind::PoolEnded);
    assert_eq!(
        e.message(),
        "Cannot send message to worker thread, This threadpool is already dropped."
    );
}

#[test]
fn next_job_waits() {
    let (tx, rx) = crossbeam_channel::unbounded::<u32>();
    tx.send(5).unwrap();
    assert_eq!(next_job(&rx, None), (Received::Job, Some(5)));
    tx.send(6).unwrap();
    assert_eq!(
        next_job(&rx, Some(Duration::from_millis(10))),
        (Received::Job, Some(6))
    );
    assert_eq!(
        next_job(&rx, Some(Duration::from_millis(10))),
        (Received::TimedOut, None)
    );
    drop(tx);
    assert_eq!(
        next_job(&rx, Some(Duration::from_millis(10))),
        (Received::Disconnected, None)
    );
    assert_eq!(next_job(&rx, None), (Received::Disconnected, None));
}
