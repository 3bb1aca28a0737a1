//! Configuration of a pool and the bookkeeping that decides, for each
//! submitted task, whether it waits, is refused, runs in the caller or
//! gets a new worker.
use crate::error::{ErrorKind, ExecutorError};
use crate::external::{
    duration_from_secs, duration_is_zero, lemma_received, lemma_received_within, lemma_sent,
    receive, receive_timeout, received, received_within, send, sent, whole_seconds, zero_length,
};
use crossbeam_channel::{Receiver, RecvError, Sender};
use std::collections::HashMap;
use std::time::Duration;
use vstd::prelude::*;

verus! {

broadcast use vstd::std_specs::hash::group_hash_axioms;

/// What happens to a task submitted while as many tasks are in work as the
/// pool has room for workers.
#[derive(Debug, Clone, Copy, PartialEq, Eq, Structural)]
pub enum ExceedLimitPolicy {
    /// The task waits in line until some worker is idle.
    Wait,
    /// The task is refused with a `TaskRejected` error.
    Reject,
    /// The task runs at once in the caller's thread.
    CallerRuns,
}

/// Seconds that a worker beyond the core ones waits for work, unless the
/// builder is told otherwise.
pub const DEFAULT_KEEP_ALIVE_SECS: u64 = 300;

/// The settings of a pool, as a builder holds them.
pub struct BuilderView {
    pub core_pool_size: Option<usize>,
    pub maximum_pool_size: Option<usize>,
    pub exeed_limit_policy: Option<ExceedLimitPolicy>,
    pub keep_alive_time: Option<Duration>,
}

/// Collects the settings of a pool.
pub struct Builder {
    core_pool_size: Option<usize>,
    maximum_pool_size: Option<usize>,
    exeed_limit_policy: Option<ExceedLimitPolicy>,
    keep_alive_time: Option<Duration>,
}

impl View for Builder {
    type V = BuilderView;

    closed spec fn view(&self) -> BuilderView {
        BuilderView {
            core_pool_size: self.core_pool_size,
            maximum_pool_size: self.maximum_pool_size,
            exeed_limit_policy: self.exeed_limit_policy,
            keep_alive_time: self.keep_alive_time,
        }
    }
}

impl BuilderView {
    /// A maximum, when set, is positive, and a keep-alive time, when set,
    /// spans some time.
    pub open spec fn wf(self) -> bool {
        &&& (self.maximum_pool_size matches Some(m) ==> m > 0)
        &&& (self.keep_alive_time matches Some(d) ==> !zero_length(d))
    }

    /// The number of core workers: none unless set.
    pub open spec fn core_size(self) -> usize {
        match self.core_pool_size {
            Some(s) => s,
            None => 0,
        }
    }

    /// The largest number of workers: unbounded (`usize::MAX`) unless set.
    pub open spec fn max_size(self) -> usize {
        match self.maximum_pool_size {
            Some(s) => s,
            None => usize::MAX,
        }
    }

    /// The policy: `Wait` unless set.
    pub open spec fn policy(self) -> ExceedLimitPolicy {
        match self.exeed_limit_policy {
            Some(p) => p,
            None => ExceedLimitPolicy::Wait,
        }
    }

    /// The configuration that building with these settings gives.
    pub open spec fn config(self) -> PoolConfig {
        PoolConfig {
            core_size: self.core_size(),
            max_size: self.max_size(),
            policy: self.policy(),
            keep_alive_time: self.keep_alive_time,
        }
    }
}

impl Builder {
    #[verifier::type_invariant]
    closed spec fn builder_wf(self) -> bool {
        self@.wf()
    }

    /// A builder with no sizes set, the `Wait` policy and a keep-alive time
    /// of `DEFAULT_KEEP_ALIVE_SECS` seconds.
    pub fn new() -> (b: Builder)
        ensures
            b@ == (BuilderView {
                core_pool_size: None,
                maximum_pool_size: None,
                exeed_limit_policy: Some(ExceedLimitPolicy::Wait),
                keep_alive_time: Some(whole_seconds(DEFAULT_KEEP_ALIVE_SECS)),
            }),
            b@.wf(),
    {
        Builder {
            core_pool_size: None,
            maximum_pool_size: None,
            exeed_limit_policy: Some(ExceedLimitPolicy::Wait),
            keep_alive_time: Some(duration_from_secs(DEFAULT_KEEP_ALIVE_SECS)),
        }
    }

    /// Sets the number of core workers, which live as long as the pool.
    pub fn core_pool_size(self, size: usize) -> (b: Builder)
        ensures
            b@ == (BuilderView { core_pool_size: Some(size), ..self@ }),
            b@.wf(),
    {
        proof {
            use_type_invariant(&self);
        }
        Builder { core_pool_size: Some(size), ..self }
    }

    /// Sets the largest number of workers, core ones included; it must be
    /// positive.
    pub fn maximum_pool_size(self, size: usize) -> (b: Builder)
        requires
            size > 0,
        ensures
            b@ == (BuilderView { maximum_pool_size: Some(size), ..self@ }),
            b@.wf(),
    {
        proof {
            use_type_invariant(&self);
        }
        Builder { maximum_pool_size: Some(size), ..self }
    }

    /// Sets what happens to tasks submitted while the pool is full.
    pub fn exeed_limit_policy(self, policy: ExceedLimitPolicy) -> (b: Builder)
        ensures
            b@ == (BuilderView { exeed_limit_policy: Some(policy), ..self@ }),
            b@.wf(),
    {
        proof {
            use_type_invariant(&self);
        }
        Builder { exeed_limit_policy: Some(policy), ..self }
    }

    /// Sets how long a worker beyond the core ones waits for work before it
    /// leaves; the time must not be zero.
    pub fn keep_alive_time(self, keep_alive_time: Duration) -> (b: Builder)
        requires
            !zero_length(keep_alive_time),
        ensures
            b@ == (BuilderView { keep_alive_time: Some(keep_alive_time), ..self@ }),
            b@.wf(),
    {
        proof {
            use_type_invariant(&self);
        }
        Builder { keep_alive_time: Some(keep_alive_time), ..self }
    }

    /// Like `keep_alive_time`, but a zero time is refused: the builder comes
    /// back unchanged as the error.
    pub fn try_keep_alive_time(self, keep_alive_time: Duration) -> (r: Result<Builder, Builder>)
        ensures
            zero_length(keep_alive_time) ==> (r matches Err(b) && b@ == self@),
            !zero_length(keep_alive_time) ==> (r matches Ok(b) && b@ == (BuilderView {
                keep_alive_time: Some(keep_alive_time),
                ..self@
            })),
    {
        if duration_is_zero(&keep_alive_time) {
            Err(self)
        } else {
            Ok(self.keep_alive_time(keep_alive_time))
        }
    }

    /// Whether these settings can be built: the core size does not exceed
    /// the maximum.
    pub fn can_build(&self) -> (b: bool)
        ensures
            b == (self@.core_size() <= self@.max_size()),
    {
        let core_size = match self.core_pool_size {
            Some(size) => size,
            None => 0,
        };
        match self.maximum_pool_size {
            Some(size) => core_size <= size,
            None => true,
        }
    }

    /// The configuration of the pool these settings describe: unset sizes
    /// become no core workers and an unbounded maximum, an unset policy
    /// becomes `Wait`. The core size must not exceed the maximum.
    pub fn build(self) -> (c: PoolConfig)
        requires
            self@.core_size() <= self@.max_size(),
        ensures
            c == self@.config(),
            c.valid(),
    {
        proof {
            use_type_invariant(&self);
        }
        let core_size = match self.core_pool_size {
            Some(size) => size,
            None => 0,
        };
        let max_size = match self.maximum_pool_size {
            Some(size) => size,
            None => usize::MAX,
        };
        let policy = match self.exeed_limit_policy {
            Some(policy) => policy,
            None => ExceedLimitPolicy::Wait,
        };
        PoolConfig { core_size, max_size, policy, keep_alive_time: self.keep_alive_time }
    }
}

/// The settings a pool is created with.
pub struct PoolConfig {
    pub core_size: usize,
    pub max_size: usize,
    pub policy: ExceedLimitPolicy,
    /// How long a worker beyond the core ones waits for work; forever when
    /// `None`.
    pub keep_alive_time: Option<Duration>,
}

impl PoolConfig {
    /// A pool can be created with these settings: the maximum is positive
    /// and not below the core size.
    pub open spec fn valid(&self) -> bool {
        0 < self.max_size && self.core_size <= self.max_size
    }

    /// The settings of a fixed pool of `size` workers that makes tasks wait
    /// when all are busy.
    pub fn fixed(size: usize) -> (c: PoolConfig)
        ensures
            c == (PoolConfig {
                core_size: size,
                max_size: size,
                policy: ExceedLimitPolicy::Wait,
                keep_alive_time: None,
            }),
            size > 0 ==> c.valid(),
    {
        PoolConfig {
            core_size: size,
            max_size: size,
            policy: ExceedLimitPolicy::Wait,
            keep_alive_time: None,
        }
    }
}

/// What a worker reports to the pool.
#[derive(Debug, Clone, Copy, PartialEq, Eq, Structural)]
pub enum WorkerStatus {
    /// It finished a task.
    JobDone,
    /// It leaves the pool.
    ThreadExit,
}

/// What a worker's wait for the next task produced.
#[derive(Debug, Clone, Copy, PartialEq, Eq, Structural)]
pub enum Received {
    /// A task.
    Job,
    /// Nothing within the keep-alive time.
    TimedOut,
    /// Nothing, and no task can come any more.
    Disconnected,
}

/// A worker runs each task it receives and then reports `JobDone`; when its
/// wait gives no task it reports `ThreadExit` and leaves.
pub open spec fn worker_report_spec(r: Received) -> WorkerStatus {
    match r {
        Received::Job => WorkerStatus::JobDone,
        _ => WorkerStatus::ThreadExit,
    }
}

/// Decides what a worker reports after its wait produced `r`; the worker
/// keeps going exactly when it reports `JobDone`.
pub fn worker_report(r: Received) -> (s: WorkerStatus)
    ensures
        s == worker_report_spec(r),
{
    match r {
        Received::Job => WorkerStatus::JobDone,
        Received::TimedOut => WorkerStatus::ThreadExit,
        Received::Disconnected => WorkerStatus::ThreadExit,
    }
}

/// Waits for the next task of a worker: without a time limit for a core
/// worker (`keep_alive` is `None`), at most `keep_alive` for any other. The
/// task comes back exactly when the wait produced one; a wait without a time
/// limit never times out.
pub fn next_job<J>(queue: &Receiver<J>, keep_alive: Option<Duration>) -> (r: (Received, Option<J>))
    ensures
        r.0 == Received::Job <==> r.1 is Some,
        keep_alive is None ==> r.0 != Received::TimedOut,
        keep_alive is None ==> exists|res: Result<J, RecvError>|
            #[trigger] received(queue, res) && match res {
                Ok(job) => r == (Received::Job, Some(job)),
                Err(_) => r == (Received::Disconnected, None::<J>),
            },
        keep_alive matches Some(t) ==> exists|res: Result<J, Received>|
            #[trigger] received_within(queue, t, res) && match res {
                Ok(job) => r == (Received::Job, Some(job)),
                Err(why) => r == (why, None::<J>),
            },
{
    match keep_alive {
        Some(timeout) => {
            let res = receive_timeout(queue, timeout);
            proof {
                lemma_received_within(queue, timeout, res);
            }
            match res {
                Ok(job) => (Received::Job, Some(job)),
                Err(why) => (why, None),
            }
        },
        None => {
            let res = receive(queue);
            proof {
                lemma_received(queue, res);
            }
            match res {
                Ok(job) => (Received::Job, Some(job)),
                Err(_) => (Received::Disconnected, None),
            }
        },
    }
}

/// A submitted task that the pool puts in line (always so under `Wait`) is
/// handed to the queue: when the queue takes it the result is the decision
/// and no task to run in the caller, and a `PoolEnded` error comes only when
/// the queue refused it for want of a reader.
pub proof fn lemma_queued_task_is_sent<W, C, J, F: FnOnce(usize, Option<Duration>) -> W>(
    s: &mut PoolState<W>,
    queue: &Sender<J>,
    job: J,
    spawn: F,
    r: Result<(Admission, Option<J>), ExecutorError<C>>,
)
    requires
        call_ensures(PoolState::<W>::execute::<C, J, F>, (s, queue, job, spawn), r),
        submit_spec(old(s)@).1 matches Some(a) && a != Admission::RunInCaller,
    ensures
        old(s)@.policy == ExceedLimitPolicy::Wait ==> submit_spec(old(s)@).1 is Some,
        exists|res: Result<(), J>|
            #[trigger] sent(queue, job, res) && (res is Ok <==> r is Ok) && (res is Ok ==> r
                == Ok::<(Admission, Option<J>), ExecutorError<C>>(
                (submit_spec(old(s)@).1->0, None),
            )) && (r matches Err(e) ==> e@.kind == ErrorKind::PoolEnded),
{
}

/// A worker without a keep-alive time (a core worker) waits for its next
/// task without a time limit: it comes away without a task only when the
/// untimed wait on the queue reported the queue empty and disconnected, and
/// otherwise it takes the very task the queue gave.
pub proof fn lemma_untimed_wait<J>(queue: &Receiver<J>, out: (Received, Option<J>))
    requires
        call_ensures(next_job::<J>, (queue, None::<Duration>), out),
    ensures
        out.0 != Received::TimedOut,
        exists|res: Result<J, RecvError>|
            #[trigger] received(queue, res) && (out.0 == Received::Disconnected <==> res is Err) && (
            res matches Ok(job) ==> out.1 == Some(job)),
{
    let res = choose|res: Result<J, RecvError>|
        #[trigger] received(queue, res) && match res {
            Ok(job) => out == (Received::Job, Some(job)),
            Err(_) => out == (Received::Disconnected, None::<J>),
        };
    assert(received(queue, res));
}

/// A worker with a keep-alive time gives up only when the timed wait on the
/// queue gave no task, and then for the reason the wait gave; otherwise it
/// takes the very task the queue gave.
pub proof fn lemma_timed_wait<J>(queue: &Receiver<J>, t: Duration, out: (Received, Option<J>))
    requires
        call_ensures(next_job::<J>, (queue, Some(t)), out),
    ensures
        exists|res: Result<J, Received>|
            #[trigger] received_within(queue, t, res) && (res matches Ok(job) ==> out == (
            Received::Job,
            Some(job),
        )) && (res matches Err(why) ==> out.0 == why && out.1 is None),
{
    let res = choose|res: Result<J, Received>|
        #[trigger] received_within(queue, t, res) && match res {
            Ok(job) => out == (Received::Job, Some(job)),
            Err(why) => out == (why, None::<J>),
        };
    assert(received_within(queue, t, res));
}

/// What the pool does with an accepted task.
#[derive(Debug, Clone, Copy, PartialEq, Eq, Structural)]
pub enum Admission {
    /// Run it now in the caller's thread.
    RunInCaller,
    /// Put it in line for the workers.
    Enqueue,
    /// Start a worker with this id, then put the task in line.
    SpawnAndEnqueue(usize),
}

/// The abstract state of a pool.
pub struct PoolModel {
    /// The id the next new worker gets.
    pub current_id: nat,
    /// The ids of the workers in the pool.
    pub workers: Set<usize>,
    pub worker_count: nat,
    /// Tasks handed to the workers and not reported done.
    pub working_count: nat,
    pub core_size: nat,
    pub max_size: nat,
    pub policy: ExceedLimitPolicy,
    pub keep_alive_time: Option<Duration>,
    /// The pool is shutting down: no task can come any more, so every
    /// worker, core ones included, may leave.
    pub ended: bool,
}

impl PoolModel {
    /// The state that every pool keeps: the count of workers is the number
    /// of workers, never above the maximum, every id is below the next, and
    /// until the pool shuts down its core workers (ids below the core size)
    /// are all there.
    pub open spec fn wf(self) -> bool {
        &&& 0 < self.max_size
        &&& self.core_size <= self.max_size
        &&& self.max_size <= usize::MAX
        &&& self.current_id <= usize::MAX
        &&& self.working_count <= usize::MAX
        &&& self.workers.finite()
        &&& self.worker_count == self.workers.len()
        &&& self.worker_count <= self.max_size
        &&& forall|id: usize| #[trigger] self.workers.contains(id) ==> id < self.current_id
        &&& self.core_size <= self.current_id
        &&& !self.ended ==> forall|id: usize| id < self.core_size ==> #[trigger] self.workers.contains(id)
    }

    /// Room is left in the machine's integers for one more task and one more
    /// worker.
    pub open spec fn has_room(self) -> bool {
        self.current_id < usize::MAX && self.working_count < usize::MAX
    }
}

/// The state of a pool right after it was created with `c`: the core
/// workers, with ids from zero, and no task in work.
pub open spec fn initial_model(c: PoolConfig) -> PoolModel {
    PoolModel {
        current_id: c.core_size as nat,
        workers: Set::new(|id: usize| id < c.core_size),
        worker_count: c.core_size as nat,
        working_count: 0,
        core_size: c.core_size as nat,
        max_size: c.max_size as nat,
        policy: c.policy,
        keep_alive_time: c.keep_alive_time,
        ended: false,
    }
}

/// The decision on a submitted task and the state after it; `None` is a
/// refusal. When as many tasks are in work as the maximum allows, the policy
/// decides; otherwise a new worker starts when no worker is idle, and the
/// task is put in line.
pub open spec fn submit_spec(m: PoolModel) -> (PoolModel, Option<Admission>) {
    if m.working_count >= m.max_size {
        match m.policy {
            ExceedLimitPolicy::Reject => (m, None),
            ExceedLimitPolicy::CallerRuns => (m, Some(Admission::RunInCaller)),
            ExceedLimitPolicy::Wait => (
                PoolModel { working_count: m.working_count + 1, ..m },
                Some(Admission::Enqueue),
            ),
        }
    } else if m.working_count >= m.worker_count {
        let id = m.current_id as usize;
        (
            PoolModel {
                current_id: m.current_id + 1,
                workers: m.workers.insert(id),
                worker_count: m.worker_count + 1,
                working_count: m.working_count + 1,
                ..m
            },
            Some(Admission::SpawnAndEnqueue(id)),
        )
    } else {
        (PoolModel { working_count: m.working_count + 1, ..m }, Some(Admission::Enqueue))
    }
}

/// A report that can come from a worker of a pool in state `m`: a finished
/// task while some task is in work, or the leave of a worker of the pool.
/// A worker leaves for lack of work only when it has a keep-alive time,
/// which only the workers beyond the core ones have; otherwise it leaves
/// only once the pool shuts down.
pub open spec fn report_allowed(m: PoolModel, id: usize, status: WorkerStatus) -> bool {
    match status {
        WorkerStatus::JobDone => m.working_count > 0,
        WorkerStatus::ThreadExit => m.workers.contains(id) && (m.ended || (id >= m.core_size
            && m.keep_alive_time is Some)),
    }
}

/// The state after a report: a finished task leaves the work count, a
/// leaving worker leaves the pool.
pub open spec fn report_spec(m: PoolModel, id: usize, status: WorkerStatus) -> PoolModel {
    match status {
        WorkerStatus::JobDone => PoolModel { working_count: (m.working_count - 1) as nat, ..m },
        WorkerStatus::ThreadExit => PoolModel {
            workers: m.workers.remove(id),
            worker_count: (m.worker_count - 1) as nat,
            ..m
        },
    }
}

/// The message of a task that could not be put in line.
pub open spec fn queue_closed_message() -> Seq<char> {
    "Cannot send message to worker thread, This threadpool is already dropped."@
}

/// The message of a refused task.
pub open spec fn rejection_message() -> Seq<char> {
    "Working tasks reaches to the limit."@
}

/// Every submission keeps the state of a pool well formed.
pub proof fn lemma_submit_keeps_wf(m: PoolModel)
    requires
        m.wf(),
        m.has_room(),
    ensures
        submit_spec(m).0.wf(),
{
    let id = m.current_id as usize;
    if m.working_count < m.max_size && m.working_count >= m.worker_count {
        assert(!m.workers.contains(id));
    }
}

/// While the pool runs with a keep-alive time, every worker beyond the core
/// ones may leave, whatever the other workers and the next id; once the pool
/// shuts down, every worker may leave; a worker not in the pool never may.
pub proof fn lemma_leaves_allowed(m: PoolModel, id: usize)
    ensures
        m.workers.contains(id) && id >= m.core_size && m.keep_alive_time is Some ==> report_allowed(
            m,
            id,
            WorkerStatus::ThreadExit,
        ),
        m.ended ==> (report_allowed(m, id, WorkerStatus::ThreadExit) <==> m.workers.contains(id)),
        !m.workers.contains(id) ==> !report_allowed(m, id, WorkerStatus::ThreadExit),
        report_allowed(m, id, WorkerStatus::JobDone) <==> m.working_count > 0,
{
}

/// A worker beyond the core ones that leaves for lack of work is taken out
/// of the pool, which shrinks by one.
pub proof fn lemma_leave_shrinks_pool(m: PoolModel, id: usize)
    requires
        m.wf(),
        m.workers.contains(id),
        id >= m.core_size,
        m.keep_alive_time is Some,
    ensures
        report_allowed(m, id, WorkerStatus::ThreadExit),
        report_spec(m, id, WorkerStatus::ThreadExit).workers == m.workers.remove(id),
        report_spec(m, id, WorkerStatus::ThreadExit).worker_count + 1 == m.worker_count,
{
}

/// Every report that fits the state keeps it well formed.
pub proof fn lemma_report_keeps_wf(m: PoolModel, id: usize, status: WorkerStatus)
    requires
        m.wf(),
        report_allowed(m, id, status),
    ensures
        report_spec(m, id, status).wf(),
{
}

/// A pool never has more workers than its maximum, core ones included: a
/// submission adds a worker only while fewer tasks are in work than the
/// maximum and no worker is idle.
pub proof fn lemma_workers_within_maximum(m: PoolModel)
    requires
        m.wf(),
    ensures
        submit_spec(m).0.worker_count <= m.max_size,
        submit_spec(m).0.worker_count > m.worker_count ==> m.working_count >= m.worker_count
            && m.working_count < m.max_size,
{
}

/// With the `Reject` policy a task is refused exactly when as many tasks
/// are in work as the maximum, and a refusal changes nothing.
pub proof fn lemma_reject_exactly_when_full(m: PoolModel)
    requires
        m.policy == ExceedLimitPolicy::Reject,
    ensures
        submit_spec(m).1 is None <==> m.working_count >= m.max_size,
        submit_spec(m).1 is None ==> submit_spec(m).0 == m,
{
}

/// With the `CallerRuns` policy a task submitted while the pool is full
/// runs in the caller and changes nothing in the pool.
pub proof fn lemma_caller_runs_when_full(m: PoolModel)
    requires
        m.policy == ExceedLimitPolicy::CallerRuns,
        m.working_count >= m.max_size,
    ensures
        submit_spec(m) == (m, Some(Admission::RunInCaller)),
{
}

/// With the `Wait` policy every task is put in line.
pub proof fn lemma_wait_always_enqueues(m: PoolModel)
    requires
        m.policy == ExceedLimitPolicy::Wait,
    ensures
        submit_spec(m).1 matches Some(a) && a != Admission::RunInCaller,
        submit_spec(m).0.working_count == m.working_count + 1,
{
}

/// Under a policy other than `Wait`, no more tasks are in work than the
/// maximum: no submission and no report takes the work count above it.
pub proof fn lemma_bounded_policies_bound_work(m: PoolModel, id: usize, status: WorkerStatus)
    requires
        m.policy != ExceedLimitPolicy::Wait,
        m.working_count <= m.max_size,
    ensures
        submit_spec(m).0.working_count <= m.max_size,
        submit_spec(m).0.policy == m.policy && submit_spec(m).0.max_size == m.max_size,
        report_allowed(m, id, status) ==> report_spec(m, id, status).working_count <= m.max_size,
        report_spec(m, id, status).policy == m.policy && report_spec(m, id, status).max_size
            == m.max_size,
{
}

/// A new worker gets an id that no worker of the pool has, and joins the
/// workers.
pub proof fn lemma_new_worker_id_is_fresh(m: PoolModel)
    requires
        m.wf(),
    ensures
        submit_spec(m).1 matches Some(Admission::SpawnAndEnqueue(id)) ==> !m.workers.contains(id)
            && submit_spec(m).0.workers == m.workers.insert(id) && id == m.current_id,
{
}

/// The report that a task put in line is done takes it out of the work
/// count again.
pub proof fn lemma_job_done_undoes_enqueue(m: PoolModel, id: usize)
    requires
        submit_spec(m).1 matches Some(a) && a != Admission::RunInCaller,
    ensures
        report_allowed(submit_spec(m).0, id, WorkerStatus::JobDone),
        report_spec(submit_spec(m).0, id, WorkerStatus::JobDone).working_count == m.working_count,
{
}

/// The leave of a worker started for a task (for lack of work, as its
/// keep-alive time allows, or at shutdown) gives the pool back the workers
/// it had before.
pub proof fn lemma_exit_undoes_spawn(m: PoolModel)
    requires
        m.wf(),
        m.keep_alive_time is Some || m.ended,
    ensures
        submit_spec(m).1 matches Some(Admission::SpawnAndEnqueue(id)) ==> {
            &&& report_allowed(submit_spec(m).0, id, WorkerStatus::ThreadExit)
            &&& report_spec(submit_spec(m).0, id, WorkerStatus::ThreadExit).workers == m.workers
            &&& report_spec(submit_spec(m).0, id, WorkerStatus::ThreadExit).worker_count
                == m.worker_count
        },
{
    if let Some(Admission::SpawnAndEnqueue(id)) = submit_spec(m).1 {
        assert(!m.workers.contains(id));
        assert(m.workers.insert(id).remove(id) =~= m.workers);
    }
}

/// Until the pool shuts down, it keeps at least its core workers: no
/// submission and no report that can come takes the number of workers below
/// the core size.
pub proof fn lemma_core_workers_stay(m: PoolModel, id: usize, status: WorkerStatus)
    requires
        m.wf(),
        !m.ended,
    ensures
        m.core_size <= m.worker_count,
        m.core_size <= submit_spec(m).0.worker_count,
        report_allowed(m, id, status) ==> m.core_size <= report_spec(m, id, status).worker_count,
{
    lemma_core_ids_counted(m);
    if report_allowed(m, id, status) && status == WorkerStatus::ThreadExit {
        assert(id >= m.core_size);
        let core = Set::new(|i: usize| i < m.core_size);
        lemma_range_set_len(m.core_size as usize);
        vstd::set_lib::lemma_len_subset(core, m.workers.remove(id));
    }
}

/// A fixed pool (as many core workers as its maximum) keeps exactly its
/// workers until it shuts down: no submission starts a worker, none of its
/// workers may leave, and with the `Wait` policy no task is refused.
pub proof fn lemma_fixed_pool_constant(m: PoolModel, id: usize)
    requires
        m.wf(),
        !m.ended,
        m.core_size == m.max_size,
    ensures
        submit_spec(m).0.workers == m.workers,
        submit_spec(m).0.worker_count == m.worker_count,
        !report_allowed(m, id, WorkerStatus::ThreadExit),
        m.policy == ExceedLimitPolicy::Wait ==> submit_spec(m).1 == Some(Admission::Enqueue),
{
    lemma_core_ids_counted(m);
    if m.workers.contains(id) && id >= m.core_size {
        let core = Set::new(|i: usize| i < m.core_size);
        lemma_range_set_len(m.core_size as usize);
        assert(core.insert(id).subset_of(m.workers));
        vstd::set_lib::lemma_len_subset(core.insert(id), m.workers);
    }
}

/// The core ids are all among the workers of a pool that has not shut
/// down, so there are at least as many workers as the core size.
proof fn lemma_core_ids_counted(m: PoolModel)
    requires
        m.wf(),
        !m.ended,
    ensures
        Set::new(|i: usize| i < m.core_size).subset_of(m.workers),
        m.core_size <= m.worker_count,
{
    let core = Set::new(|i: usize| i < m.core_size);
    assert(core.subset_of(m.workers));
    lemma_range_set_len(m.core_size as usize);
    vstd::set_lib::lemma_len_subset(core, m.workers);
}

/// A freshly created pool is well formed and has its core workers, with
/// ids from zero, and no task in work.
pub proof fn lemma_initial_state(c: PoolConfig)
    requires
        c.valid(),
    ensures
        initial_model(c).wf(),
        initial_model(c).worker_count == c.core_size,
        initial_model(c).working_count == 0,
{
    lemma_range_set_len(c.core_size);
}

/// The ids below `n` are `n` in number.
proof fn lemma_range_set_len(n: usize)
    ensures
        Set::new(|id: usize| id < n).finite(),
        Set::new(|id: usize| id < n).len() == n,
    decreases n,
{
    if n == 0 {
        assert(Set::new(|id: usize| id < n) =~= Set::<usize>::empty());
    } else {
        let k = (n - 1) as usize;
        lemma_range_set_len(k);
        assert(Set::new(|id: usize| id < n) =~= Set::new(|id: usize| id < k).insert(k));
    }
}

/// The bookkeeping of a pool: its workers, each under its id, and the counts
/// that admission reads.
pub struct PoolState<W> {
    current_id: usize,
    workers: HashMap<usize, W>,
    worker_count: usize,
    working_count: usize,
    core_size: usize,
    max_size: usize,
    policy: ExceedLimitPolicy,
    keep_alive_time: Option<Duration>,
    ended: bool,
}

impl<W> View for PoolState<W> {
    type V = PoolModel;

    closed spec fn view(&self) -> PoolModel {
        PoolModel {
            current_id: self.current_id as nat,
            workers: self.workers@.dom(),
            worker_count: self.worker_count as nat,
            working_count: self.working_count as nat,
            core_size: self.core_size as nat,
            max_size: self.max_size as nat,
            policy: self.policy,
            keep_alive_time: self.keep_alive_time,
            ended: self.ended,
        }
    }
}

impl<W> PoolState<W> {
    /// The worker kept under each id.
    pub closed spec fn handles(&self) -> Map<usize, W> {
        self.workers@
    }

    /// Creates the bookkeeping of a pool, starting its core workers with
    /// `spawn`, which gets the id of each and no keep-alive time: core
    /// workers wait for work as long as the pool lives.
    pub fn create<F: Fn(usize, Option<Duration>) -> W>(config: PoolConfig, spawn: F) -> (s: PoolState<W>)
        requires
            config.valid(),
            forall|id: usize, keep: Option<Duration>| spawn.requires((id, keep)),
        ensures
            s@ == initial_model(config),
            s@.wf(),
            s.handles().dom() == s@.workers,
            forall|id: usize| #[trigger] s@.workers.contains(id) ==> spawn.ensures(
                (id, None::<Duration>),
                s.handles()[id],
            ),
    {
        let core_size = config.core_size;
        let mut workers: HashMap<usize, W> = HashMap::new();
        let mut i: usize = 0;
        while i < core_size
            invariant
                i <= core_size,
                forall|id: usize, keep: Option<Duration>| spawn.requires((id, keep)),
                workers@.dom() == Set::new(|id: usize| id < i),
                workers@.dom().len() == i,
                forall|id: usize| #[trigger] workers@.contains_key(id) ==> spawn.ensures(
                    (id, None::<Duration>),
                    workers@[id],
                ),
            decreases core_size - i,
        {
            let w = spawn(i, None);
            proof {
                assert(!workers@.dom().contains(i));
            }
            workers.insert(i, w);
            proof {
                assert(workers@.dom() =~= Set::new(|id: usize| id < i + 1));
            }
            i = i + 1;
        }
        let s = PoolState {
            current_id: core_size,
            workers,
            worker_count: core_size,
            working_count: 0,
            core_size,
            max_size: config.max_size,
            policy: config.policy,
            keep_alive_time: config.keep_alive_time,
            ended: false,
        };
        proof {
            assert(s@.workers =~= initial_model(config).workers);
        }
        s
    }

    /// The number of workers in the pool.
    pub fn size(&self) -> (n: usize)
        ensures
            n == self@.worker_count,
    {
        self.worker_count
    }

    /// The number of tasks handed to the workers and not reported done.
    pub fn working(&self) -> (n: usize)
        ensures
            n == self@.working_count,
    {
        self.working_count
    }

    /// The largest number of workers this pool may have.
    pub fn max_size(&self) -> (n: usize)
        ensures
            n == self@.max_size,
    {
        self.max_size
    }

    /// Whether a worker with this id is in the pool.
    pub fn has_worker(&self, id: usize) -> (b: bool)
        ensures
            b == self@.workers.contains(id),
    {
        self.workers.contains_key(&id)
    }

    /// Whether the integers of the bookkeeping have room for one more task
    /// and one more worker.
    pub fn has_room(&self) -> (b: bool)
        ensures
            b == self@.has_room(),
    {
        self.current_id < usize::MAX && self.working_count < usize::MAX
    }

    /// Decides what becomes of a submitted task and books it. A refusal
    /// comes back as a `TaskRejected` error and changes nothing. A new worker
    /// is started with `spawn`, which gets its id and the keep-alive time.
    pub fn submit<C, F: FnOnce(usize, Option<Duration>) -> W>(&mut self, spawn: F) -> (r: Result<
        Admission,
        ExecutorError<C>,
    >)
        requires
            old(self)@.wf(),
            old(self)@.has_room(),
            forall|id: usize, keep: Option<Duration>| spawn.requires((id, keep)),
        ensures
            final(self)@ == submit_spec(old(self)@).0,
            final(self)@.wf(),
            submit_spec(old(self)@).1 matches Some(Admission::SpawnAndEnqueue(id)) ==> spawn.ensures(
                (id, old(self)@.keep_alive_time),
                final(self).handles()[id],
            ) && final(self).handles() == old(self).handles().insert(id, final(self).handles()[id]),
            !(submit_spec(old(self)@).1 matches Some(Admission::SpawnAndEnqueue(_))) 
                ==> final(self).handles() == old(self).handles(),
            match r {
                Ok(a) => submit_spec(old(self)@).1 == Some(a),
                Err(e) => submit_spec(old(self)@).1 is None && e@.kind == ErrorKind::TaskRejected
                    && e@.message == rejection_message() && e@.cause is None,
            },
    {
        if self.working_count >= self.max_size {
            match self.policy {
                ExceedLimitPolicy::Wait => {
                    self.working_count = self.working_count + 1;
                    return Ok(Admission::Enqueue);
                },
                ExceedLimitPolicy::Reject => {
                    return Err(
                        ExecutorError::new(
                            ErrorKind::TaskRejected,
                            "Working tasks reaches to the limit.".to_owned(),
                        ),
                    );
                },
                ExceedLimitPolicy::CallerRuns => {
                    return Ok(Admission::RunInCaller);
                },
            }
        }
        if self.working_count >= self.worker_count {
            let id = self.current_id;
            let w = spawn(id, self.keep_alive_time);
            proof {
                assert(!self.workers@.dom().contains(id));
            }
            self.workers.insert(id, w);
            self.current_id = self.current_id + 1;
            self.worker_count = self.worker_count + 1;
            self.working_count = self.working_count + 1;
            proof {
                assert(self@.workers =~= old(self)@.workers.insert(id));
            }
            Ok(Admission::SpawnAndEnqueue(id))
        } else {
            self.working_count = self.working_count + 1;
            Ok(Admission::Enqueue)
        }
    }

    /// Submits `job`: books it as `submit` does, then puts it in `queue`,
    /// or hands it back when the decision is `RunInCaller`, for the caller
    /// to run at once. A refusal gives a `TaskRejected` error; a queue that
    /// nobody reads any more gives a `PoolEnded` error.
    pub fn execute<C, J, F: FnOnce(usize, Option<Duration>) -> W>(
        &mut self,
        queue: &Sender<J>,
        job: J,
        spawn: F,
    ) -> (r: Result<(Admission, Option<J>), ExecutorError<C>>)
        requires
            old(self)@.wf(),
            old(self)@.has_room(),
            forall|id: usize, keep: Option<Duration>| spawn.requires((id, keep)),
        ensures
            final(self)@ == submit_spec(old(self)@).0,
            final(self)@.wf(),
            submit_spec(old(self)@).1 matches Some(Admission::SpawnAndEnqueue(id)) ==> spawn.ensures(
                (id, old(self)@.keep_alive_time),
                final(self).handles()[id],
            ) && final(self).handles() == old(self).handles().insert(id, final(self).handles()[id]),
            !(submit_spec(old(self)@).1 matches Some(Admission::SpawnAndEnqueue(_))) 
                ==> final(self).handles() == old(self).handles(),
            match submit_spec(old(self)@).1 {
                None => r matches Err(e) && e@.kind == ErrorKind::TaskRejected && e@.message
                    == rejection_message() && e@.cause is None,
                Some(Admission::RunInCaller) => r == Ok::<(Admission, Option<J>), ExecutorError<C>>(
                    (Admission::RunInCaller, Some(job)),
                ),
                Some(a) => r == Ok::<(Admission, Option<J>), ExecutorError<C>>((a, None)) || (r matches Err(e)
                    && e@.kind == ErrorKind::PoolEnded && e@.message == queue_closed_message()
                    && e@.cause is None),
            },
            match submit_spec(old(self)@).1 {
                Some(Admission::Enqueue) | Some(Admission::SpawnAndEnqueue(_)) => exists|
                    res: Result<(), J>,
                |
                    #[trigger] sent(queue, job, res) && match res {
                        Ok(()) => r == Ok::<(Admission, Option<J>), ExecutorError<C>>(
                            (submit_spec(old(self)@).1->0, None),
                        ),
                        Err(_) => r matches Err(e) && e@.kind == ErrorKind::PoolEnded && e@.message
                            == queue_closed_message() && e@.cause is None,
                    },
                _ => true,
            },
    {
        let decision = self.submit::<C, F>(spawn);
        match decision {
            Err(e) => Err(e),
            Ok(Admission::RunInCaller) => Ok((Admission::RunInCaller, Some(job))),
            Ok(a) => {
                let ghost msg = job;
                let res = send(queue, job);
                proof {
                    lemma_sent(queue, msg, res);
                }
                match res {
                Ok(()) => Ok((a, None)),
                Err(_) => Err(
                    ExecutorError::new(
                        ErrorKind::PoolEnded,
                        "Cannot send message to worker thread, This threadpool is already dropped.".to_owned(),
                    ),
                ),
                }
            },
        }
    }

    /// Whether a report of `status` from worker `id` fits the current state.
    pub fn accepts(&self, id: usize, status: WorkerStatus) -> (b: bool)
        ensures
            b == report_allowed(self@, id, status),
            status == WorkerStatus::JobDone ==> (b <==> self@.working_count > 0),
            status == WorkerStatus::ThreadExit && self@.workers.contains(id) && id
                >= self@.core_size && self@.keep_alive_time is Some ==> b,
            status == WorkerStatus::ThreadExit && self@.ended ==> (b <==> self@.workers.contains(id)),
            status == WorkerStatus::ThreadExit && !self@.workers.contains(id) ==> !b,
    {
        match status {
            WorkerStatus::JobDone => self.working_count > 0,
            WorkerStatus::ThreadExit => self.workers.contains_key(&id) && (self.ended || (id
                >= self.core_size && self.keep_alive_time.is_some())),
        }
    }

    /// Marks the pool as shutting down: from now on no task comes, and
    /// every worker, core ones included, may leave.
    pub fn close(&mut self)
        requires
            old(self)@.wf(),
        ensures
            final(self)@ == (PoolModel { ended: true, ..old(self)@ }),
            final(self)@.wf(),
            final(self).handles() == old(self).handles(),
    {
        self.ended = true;
    }

    /// Books a report of worker `id`. A leaving worker is taken out of the
    /// pool and handed back.
    pub fn on_status(&mut self, id: usize, status: WorkerStatus) -> (gone: Option<W>)
        requires
            old(self)@.wf(),
            report_allowed(old(self)@, id, status),
        ensures
            final(self)@ == report_spec(old(self)@, id, status),
            final(self)@.wf(),
            status == WorkerStatus::JobDone ==> gone is None && final(self).handles()
                == old(self).handles(),
            status == WorkerStatus::ThreadExit ==> gone == Some(old(self).handles()[id])
                && final(self).handles() == old(self).handles().remove(id),
    {
        match status {
            WorkerStatus::JobDone => {
                self.working_count = self.working_count - 1;
                None
            },
            WorkerStatus::ThreadExit => {
                let gone = self.workers.remove(&id);
                self.worker_count = self.worker_count - 1;
                proof {
                    assert(self@.workers =~= old(self)@.workers.remove(id));
                }
                gone
            },
        }
    }
}

} // verus!
