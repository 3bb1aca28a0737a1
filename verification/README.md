# threadpool_executor

A thread pool with core workers that live as long as the pool, extra
workers up to a maximum that leave after a keep-alive time, and a policy
for tasks submitted while the pool is full (wait, reject, or run in the
caller). Submitted tasks can be cancelled while they wait in line.

The library under `src/` is verified with Verus:

- `threadpool.rs`: the builder and configuration, the pool's bookkeeping
  (`PoolState`: workers by id, counts of workers and of tasks in work), the
  decision taken for each submitted task, the reports of the workers, and
  the laws that hold of them.
- `task.rs`: the life of a task (waiting, running, done, cancelled) and its
  laws; the shared status of a task.
- `expectation.rs`: the caller's and the worker's ends of a task: getting
  the result once, with or without a time limit, and cancelling.
- `error.rs`: error kinds and errors.
- `external.rs`: the calls into `crossbeam_channel`, `Duration` and the
  standard atomics, with the contracts trusted of them.

`app/` runs the pool: it starts the threads, runs the workers' loop and the
thread that books their reports, catches panics, and asks the library for
every decision.
