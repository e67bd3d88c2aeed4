use jatayud::execpool::{Error, Job, Phase, PoolState, Priority};

#[test]
fn completed_work_resolves_ok() {
    // A task that runs to completion delivers its output through the job.
    let mut pool = PoolState::new(8);
    let id = pool.submit(Priority::LowPriority);
    assert!(id.is_some());
    let dispatched = pool.dispatch_one();
    assert_eq!(dispatched, Some((id.unwrap(), Priority::LowPriority)));
    let mut job: Job<usize> = Job::new();
    job.deliver(42);
    pool.task_done(id.unwrap());
    assert_eq!(pool.tasks(), 0);
    assert_eq!(job.take(), Ok(42));
}

#[test]
fn multi_task() {
    // Two tasks on one pool complete independently, each job yielding its
    // own output, regardless of priority class.
    let mut pool = PoolState::new(8);
    let low = pool.submit(Priority::LowPriority).unwrap();
    let high = pool.submit(Priority::HighPriority).unwrap();
    assert_eq!(pool.tasks(), 2);
    // the high-priority mailbox is drained first
    assert_eq!(pool.dispatch_one(), Some((high, Priority::HighPriority)));
    assert_eq!(pool.dispatch_one(), Some((low, Priority::LowPriority)));
    let mut job_low: Job<usize> = Job::new();
    let mut job_high: Job<usize> = Job::new();
    job_high.deliver(42);
    job_low.deliver(11);
    pool.task_done(high);
    pool.task_done(low);
    assert_eq!(pool.tasks(), 0);
    assert_eq!(job_low.take(), Ok(11));
    assert_eq!(job_high.take(), Ok(42));
}

#[test]
fn fifo_within_priority() {
    let mut pool = PoolState::new(8);
    let first = pool.submit(Priority::LowPriority).unwrap();
    let second = pool.submit(Priority::LowPriority).unwrap();
    assert_eq!(pool.dispatch_one(), Some((first, Priority::LowPriority)));
    assert_eq!(pool.dispatch_one(), Some((second, Priority::LowPriority)));
    assert_eq!(pool.dispatch_one(), None);
}

#[test]
fn drop_receiver() {
    // Dropping the job before its task finishes cancels the task: the
    // count drops by one and the caller observes an error.
    let mut pool = PoolState::new(8);
    let id = pool.submit(Priority::LowPriority).unwrap();
    assert_eq!(pool.tasks(), 1);
    let mut job: Job<usize> = Job::new();
    job.drop_handle();
    assert!(job.cancelled);
    // the dispatch loop runs the task, which sees the cancellation and
    // finishes without sending
    pool.dispatch_one();
    job.close();
    pool.task_done(id);
    assert_eq!(pool.tasks(), 0);
    assert_eq!(job.take(), Err(Error));
}

#[test]
fn detach_receiver() {
    // A detached job's task is not cancelled by dropping the handle: the
    // task still runs to completion.
    let mut pool = PoolState::new(8);
    let id = pool.submit(Priority::LowPriority).unwrap();
    let job: Job<usize> = Job::new();
    let mut job = job.detach();
    job.drop_handle();
    assert!(!job.cancelled);
    pool.dispatch_one();
    job.deliver(11);
    pool.task_done(id);
    assert_eq!(pool.tasks(), 0);
    // the output was sent even though no caller observes it
    assert_eq!(job.take(), Ok(11));
}

#[test]
fn executor_shutdown_while_task_running() {
    // Shutdown does not abort in-flight work: a task dispatched before
    // shutdown still completes and resolves Ok.
    let mut pool = PoolState::new(8);
    let id = pool.submit(Priority::LowPriority).unwrap();
    pool.dispatch_one();
    pool.shutdown();
    assert_eq!(pool.phase(), Phase::Draining);
    assert_eq!(pool.tasks(), 1);
    let mut job: Job<usize> = Job::new();
    job.deliver(42);
    pool.task_done(id);
    assert_eq!(job.take(), Ok(42));
    pool.complete_drain();
    assert_eq!(pool.phase(), Phase::Terminated);
}

#[test]
fn executor_submit_task_after_shutdown() {
    // Submitting after shutdown never panics and always yields an error on
    // the returned job.
    let mut pool = PoolState::new(8);
    pool.shutdown();
    let id = pool.submit(Priority::LowPriority);
    assert_eq!(id, None);
    let mut job: Job<usize> = Job::new();
    // the task was silently dropped, so the sender closes the channel
    job.close();
    assert_eq!(job.take(), Err(Error));
}

#[test]
fn executor_submit_after_repeated_shutdown() {
    // Shutting down twice has the same observable effect as once.
    let mut pool = PoolState::new(8);
    let mut pool2 = PoolState::new(8);
    pool.shutdown();
    pool2.shutdown();
    pool2.shutdown();
    assert_eq!(pool.phase(), pool2.phase());
    assert_eq!(pool.tasks(), pool2.tasks());
    assert_eq!(pool.submit(Priority::HighPriority), None);
    assert_eq!(pool2.submit(Priority::HighPriority), None);
}

#[test]
fn executor_join() {
    // Joining an idle pool completes at once and is idempotent.
    let mut pool = PoolState::new(8);
    pool.shutdown();
    pool.complete_drain();
    assert_eq!(pool.phase(), Phase::Terminated);
    // a second join finds the pool already terminated and has nothing to do
    pool.shutdown();
    assert_eq!(pool.phase(), Phase::Terminated);
    assert_eq!(pool.tasks(), 0);
}

#[test]
fn queue_full_rejects() {
    // The mailboxes are bounded: a full mailbox drops the submission.
    let mut pool = PoolState::new(1);
    assert!(pool.submit(Priority::LowPriority).is_some());
    assert_eq!(pool.submit(Priority::LowPriority), None);
    // the other mailbox still has room
    assert!(pool.submit(Priority::HighPriority).is_some());
}

#[test]
fn shutdown_drops_queued_tasks() {
    // Tasks still queued when the drain completes are dropped.
    let mut pool = PoolState::new(8);
    pool.submit(Priority::LowPriority).unwrap();
    pool.submit(Priority::HighPriority).unwrap();
    pool.shutdown();
    assert_eq!(pool.tasks(), 2);
    pool.complete_drain();
    assert_eq!(pool.tasks(), 0);
    assert_eq!(pool.phase(), Phase::Terminated);
}

#[test]
fn parallelism_is_positive() {
    assert!(jatayud::execpool::get_parallelism() >= 1);
}
