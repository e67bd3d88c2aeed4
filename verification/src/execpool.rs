//! State machine of the dedicated task executor.
//!
//! The executor runs submitted work on a separate multi-threaded runtime;
//! what is verified here is every decision it makes: whether a submission
//! is accepted, which mailbox it lands in, which task the dispatch loop
//! runs next, and how shutdown drains the pool.  The runtime performs each
//! action and reports each event back to this state machine; the result
//! handle is modelled by `Job`, a one-shot channel with a cancellation
//! flag.

use vstd::prelude::*;

verus! {

/// Priority class of a submitted task; picks which mailbox the task lands in.
#[derive(PartialEq, Eq, PartialOrd, Ord, Clone, Copy, Debug, Structural)]
pub enum Priority {
    LowPriority,
    HighPriority,
}

/// Lifecycle of the pool: accepting submissions, draining in-flight work
/// after shutdown was requested, or fully terminated.
#[derive(PartialEq, Eq, Clone, Copy, Debug, Structural)]
pub enum Phase {
    Accepting,
    Draining,
    Terminated,
}

/// The mathematical value of the scheduler state.
#[verifier::ext_equal]
pub struct PoolView {
    pub phase: Phase,
    pub capacity: nat,
    pub high: Seq<u64>,
    pub low: Seq<u64>,
    pub running: Seq<u64>,
    pub next_id: nat,
}

impl PoolView {
    /// Number of live tasks: queued in either mailbox or dispatched and
    /// not yet finished.
    pub open spec fn task_count(self) -> nat {
        self.high.len() + self.low.len() + self.running.len()
    }

    /// Every task id was handed out by `next_id`, and no id occurs twice.
    pub open spec fn wf(self) -> bool {
        &&& forall|i: int| 0 <= i < self.high.len() ==> self.high[i] < self.next_id
        &&& forall|i: int| 0 <= i < self.low.len() ==> self.low[i] < self.next_id
        &&& forall|i: int| 0 <= i < self.running.len() ==> self.running[i] < self.next_id
        &&& (self.high + self.low + self.running).no_duplicates()
    }
}

/// What `submit` does: in the accepting phase with room in the selected
/// mailbox, a fresh task id is enqueued at its back; otherwise the
/// submission is dropped and the pool unchanged.
pub open spec fn submit_spec(v: PoolView, priority: Priority) -> (PoolView, Option<u64>) {
    if v.phase != Phase::Accepting {
        (v, None)
    } else if priority == Priority::HighPriority {
        if v.high.len() < v.capacity {
            (
                PoolView { high: v.high.push(v.next_id as u64), next_id: v.next_id + 1, ..v },
                Some(v.next_id as u64),
            )
        } else {
            (v, None)
        }
    } else {
        if v.low.len() < v.capacity {
            (
                PoolView { low: v.low.push(v.next_id as u64), next_id: v.next_id + 1, ..v },
                Some(v.next_id as u64),
            )
        } else {
            (v, None)
        }
    }
}

/// What the dispatch loop runs next: strictly the oldest high-priority
/// task while any is queued, else the oldest low-priority task; the task
/// moves to the running set.
pub open spec fn dispatch_spec(v: PoolView) -> (PoolView, Option<(u64, Priority)>) {
    if v.phase != Phase::Accepting {
        (v, None)
    } else if v.high.len() > 0 {
        (
            PoolView { high: v.high.drop_first(), running: v.running.push(v.high[0]), ..v },
            Some((v.high[0], Priority::HighPriority)),
        )
    } else if v.low.len() > 0 {
        (
            PoolView { low: v.low.drop_first(), running: v.running.push(v.low[0]), ..v },
            Some((v.low[0], Priority::LowPriority)),
        )
    } else {
        (v, None)
    }
}

/// What a task's completion does: its id leaves the running set.
pub open spec fn task_done_spec(v: PoolView, id: u64) -> PoolView {
    PoolView { running: v.running.remove_value(id), ..v }
}

/// What `shutdown` does: an accepting pool stops taking submissions and
/// begins draining; on any other pool it does nothing.
pub open spec fn shutdown_spec(v: PoolView) -> PoolView {
    if v.phase == Phase::Accepting {
        PoolView { phase: Phase::Draining, ..v }
    } else {
        v
    }
}

/// What the end of the drain does: with nothing left running, the loop
/// exits, the mailboxes are dropped, and the pool is terminated.
pub open spec fn complete_drain_spec(v: PoolView) -> PoolView {
    PoolView { phase: Phase::Terminated, high: Seq::empty(), low: Seq::empty(), ..v }
}

/// The pool state `join` leaves behind, whatever the starting state: fully
/// terminated and empty.
pub open spec fn joined(v: PoolView) -> PoolView {
    PoolView {
        phase: Phase::Terminated,
        capacity: v.capacity,
        high: Seq::empty(),
        low: Seq::empty(),
        running: Seq::empty(),
        next_id: v.next_id,
    }
}

/// The scheduler state: two bounded FIFO mailboxes of task ids, the set of
/// dispatched-but-unfinished task ids, and the lifecycle phase.
pub struct PoolState {
    phase: Phase,
    capacity: usize,
    high_queue: Vec<u64>,
    low_queue: Vec<u64>,
    running: Vec<u64>,
    next_id: u64,
}

impl View for PoolState {
    type V = PoolView;

    closed spec fn view(&self) -> PoolView {
        PoolView {
            phase: self.phase,
            capacity: self.capacity as nat,
            high: self.high_queue@,
            low: self.low_queue@,
            running: self.running@,
            next_id: self.next_id as nat,
        }
    }
}

impl PoolState {
    /// Fresh pool: accepting, both mailboxes empty, nothing running.
    pub fn new(capacity: usize) -> (s: Self)
        ensures
            s@ =~~= (PoolView {
                phase: Phase::Accepting,
                capacity: capacity as nat,
                high: Seq::empty(),
                low: Seq::empty(),
                running: Seq::empty(),
                next_id: 0,
            }),
            s@.wf(),
    {
        let s = PoolState {
            phase: Phase::Accepting,
            capacity,
            high_queue: Vec::new(),
            low_queue: Vec::new(),
            running: Vec::new(),
            next_id: 0,
        };
        proof {
            assert(s@.high + s@.low + s@.running =~= Seq::<u64>::empty());
        }
        s
    }

    /// Number of currently live tasks, as the executor reports it.
    pub fn tasks(&self) -> (n: usize)
        requires
            self@.task_count() <= usize::MAX,
        ensures
            n == self@.task_count(),
    {
        self.high_queue.len() + self.low_queue.len() + self.running.len()
    }

    /// The lifecycle phase.
    pub fn phase(&self) -> (p: Phase)
        ensures
            p == self@.phase,
    {
        self.phase
    }

    /// Number of dispatched tasks not yet finished.
    pub fn running_count(&self) -> (n: usize)
        ensures
            n == self@.running.len(),
    {
        self.running.len()
    }

    /// Accepts or drops one submission, as `submit_spec` says: a fresh
    /// task id lands at the back of the selected mailbox when the pool is
    /// accepting and that mailbox has room; otherwise nothing changes and
    /// the caller's handle will resolve to an error.
    pub fn submit(&mut self, priority: Priority) -> (r: Option<u64>)
        requires
            old(self)@.wf(),
            old(self)@.next_id < u64::MAX,
        ensures
            final(self)@.wf(),
            (final(self)@, r) == submit_spec(old(self)@, priority),
    {
        if !matches!(self.phase, Phase::Accepting) {
            return None;
        }
        let id = self.next_id;
        if matches!(priority, Priority::HighPriority) {
            if self.high_queue.len() < self.capacity {
                self.high_queue.push(id);
                self.next_id = id + 1;
                proof {
                    lemma_fresh_id_wf(old(self)@, self@, id);
                }
                Some(id)
            } else {
                None
            }
        } else {
            if self.low_queue.len() < self.capacity {
                self.low_queue.push(id);
                self.next_id = id + 1;
                proof {
                    lemma_fresh_id_wf(old(self)@, self@, id);
                }
                Some(id)
            } else {
                None
            }
        }
    }

    /// Takes the next task for the dispatch loop: strictly the oldest
    /// high-priority task first, else the oldest low-priority one; the
    /// task joins the running set.
    pub fn dispatch_one(&mut self) -> (r: Option<(u64, Priority)>)
        requires
            old(self)@.wf(),
        ensures
            final(self)@.wf(),
            (final(self)@, r) == dispatch_spec(old(self)@),
    {
        if !matches!(self.phase, Phase::Accepting) {
            return None;
        }
        if self.high_queue.len() > 0 {
            let id = self.high_queue.remove(0);
            self.running.push(id);
            proof {
                lemma_move_to_running_wf(old(self)@, self@);
            }
            Some((id, Priority::HighPriority))
        } else if self.low_queue.len() > 0 {
            let id = self.low_queue.remove(0);
            self.running.push(id);
            proof {
                lemma_move_to_running_wf(old(self)@, self@);
            }
            Some((id, Priority::LowPriority))
        } else {
            None
        }
    }

    /// Records that a dispatched task finished (with output, cancelled, or
    /// by panic): its id leaves the running set and the live count drops
    /// by one.
    pub fn task_done(&mut self, id: u64)
        requires
            old(self)@.wf(),
            old(self)@.running.contains(id),
        ensures
            final(self)@.wf(),
            final(self)@ == task_done_spec(old(self)@, id),
            final(self)@.task_count() == old(self)@.task_count() - 1,
    {
        let n = self.running.len();
        let mut i: usize = 0;
        while i < n
            invariant
                0 <= i <= n,
                self@ == old(self)@,
                n == self.running@.len(),
                forall|j: int| 0 <= j < i ==> self.running@[j] != id,
                self.running@.contains(id),
                self@.wf(),
            decreases n - i,
        {
            if self.running[i] == id {
                self.running.remove(i);
                proof {
                    lemma_remove_first_value(old(self)@.running, i as int, id);
                    assert(self@.high + self@.low + self@.running =~= (old(self)@.high + old(
                        self,
                    )@.low + old(self)@.running).remove(
                        old(self)@.high.len() + old(self)@.low.len() + i,
                    ));
                    lemma_remove_no_dup(
                        old(self)@.high + old(self)@.low + old(self)@.running,
                        old(self)@.high.len() + old(self)@.low.len() + i,
                    );
                }
                return ;
            }
            i += 1;
        }
        proof {
            let w = choose|j: int| 0 <= j < n && old(self)@.running[j] == id;
            assert(false);
        }
    }

    /// Requests shutdown: an accepting pool stops taking submissions and
    /// begins draining; in-flight and queued work is untouched.  Doing it
    /// again changes nothing.
    pub fn shutdown(&mut self)
        ensures
            final(self)@ == shutdown_spec(old(self)@),
            final(self)@.wf() == old(self)@.wf(),
    {
        if matches!(self.phase, Phase::Accepting) {
            self.phase = Phase::Draining;
        }
    }

    /// Ends the drain: with nothing left running, the dispatch loop exits,
    /// the mailboxes are dropped with their undispatched tasks, and the
    /// pool is terminated.
    pub fn complete_drain(&mut self)
        requires
            old(self)@.phase == Phase::Draining,
            old(self)@.running.len() == 0,
        ensures
            final(self)@ =~~= complete_drain_spec(old(self)@),
            final(self)@ =~~= joined(old(self)@),
            final(self)@.wf() || !old(self)@.wf(),
    {
        self.phase = Phase::Terminated;
        self.high_queue = Vec::new();
        self.low_queue = Vec::new();
        proof {
            if old(self)@.wf() {
                assert(self@.high + self@.low + self@.running =~= Seq::<u64>::empty());
            }
            assert(old(self)@.running =~= Seq::<u64>::empty());
        }
    }
}

/// A pool that accepted a fresh task id stays well-formed: the new id is
/// larger than every id already present.
proof fn lemma_fresh_id_wf(v: PoolView, w: PoolView, id: u64)
    requires
        v.wf(),
        id == v.next_id,
        w.next_id == v.next_id + 1,
        w.running == v.running,
        (w.high == v.high.push(id) && w.low == v.low) || (w.low == v.low.push(id) && w.high
            == v.high),
    ensures
        w.wf(),
{
    let all_v = v.high + v.low + v.running;
    let all_w = w.high + w.low + w.running;
    assert(forall|i: int| 0 <= i < all_v.len() ==> all_v[i] < v.next_id);
    if w.high == v.high.push(id) && w.low == v.low {
        assert(all_w =~= (v.high.push(id)) + v.low + v.running);
        assert forall|i: int, j: int| 0 <= i < j < all_w.len() implies all_w[i] != all_w[j] by {
            if j < all_w.len() {
                let hl = v.high.len() as int;
                if i != hl && j != hl {
                    let i0 = if i < hl {
                        i
                    } else {
                        i - 1
                    };
                    let j0 = if j < hl {
                        j
                    } else {
                        j - 1
                    };
                    assert(all_w[i] == all_v[i0] && all_w[j] == all_v[j0]);
                } else {
                    if i == hl {
                        assert(all_w[i] == id && all_w[j] == all_v[j - 1]);
                    } else {
                        assert(all_w[j] == id && all_w[i] == all_v[i]);
                    }
                }
            }
        }
        assert(all_w.no_duplicates());
    } else {
        assert(all_w =~= v.high + (v.low.push(id)) + v.running);
        let hl = v.high.len() as int;
        let ll = v.low.len() as int;
        assert forall|i: int, j: int| 0 <= i < j < all_w.len() implies all_w[i] != all_w[j] by {
            let p = hl + ll;
            if i != p && j != p {
                let i0 = if i < p {
                    i
                } else {
                    i - 1
                };
                let j0 = if j < p {
                    j
                } else {
                    j - 1
                };
                assert(all_w[i] == all_v[i0] && all_w[j] == all_v[j0]);
            } else {
                if i == p {
                    assert(all_w[i] == id && all_w[j] == all_v[j - 1]);
                } else {
                    assert(all_w[j] == id && all_w[i] == all_v[i]);
                }
            }
        }
        assert(all_w.no_duplicates());
    }
}

/// A pool that moved the head of one mailbox into the running set stays
/// well-formed: the combined id sequence is only reordered.
proof fn lemma_move_to_running_wf(v: PoolView, w: PoolView)
    requires
        v.wf(),
        w.next_id == v.next_id,
        (v.high.len() > 0 && w.high == v.high.drop_first() && w.low == v.low && w.running
            == v.running.push(v.high[0])) || (v.high.len() == 0 && v.low.len() > 0 && w.low
            == v.low.drop_first() && w.high == v.high && w.running == v.running.push(v.low[0])),
    ensures
        w.wf(),
{
    let all_v = v.high + v.low + v.running;
    let all_w = w.high + w.low + w.running;
    if v.high.len() > 0 && w.high == v.high.drop_first() {
        assert forall|i: int, j: int| 0 <= i < j < all_w.len() implies all_w[i] != all_w[j] by {
            let last = all_w.len() - 1;
            let f = |x: int| if x == last {
                0int
            } else {
                x + 1
            };
            assert(all_w[i] == all_v[f(i)] && all_w[j] == all_v[f(j)]);
        }
        assert(all_w.no_duplicates());
    } else {
        let hl = v.high.len() as int;
        assert forall|i: int, j: int| 0 <= i < j < all_w.len() implies all_w[i] != all_w[j] by {
            let last = all_w.len() - 1;
            let f = |x: int| if x == last {
                hl
            } else if x < hl {
                x
            } else {
                x + 1
            };
            assert(all_w[i] == all_v[f(i)] && all_w[j] == all_v[f(j)]);
        }
        assert(all_w.no_duplicates());
    }
}

/// Removing one element of a duplicate-free sequence leaves it
/// duplicate-free.
proof fn lemma_remove_no_dup(s: Seq<u64>, k: int)
    requires
        s.no_duplicates(),
        0 <= k < s.len(),
    ensures
        s.remove(k).no_duplicates(),
{
    let t = s.remove(k);
    assert forall|i: int, j: int| 0 <= i < j < t.len() implies t[i] != t[j] by {
        let f = |x: int| if x < k {
            x
        } else {
            x + 1
        };
        assert(t[i] == s[f(i)] && t[j] == s[f(j)]);
    }
}

/// Removing the first occurrence of a value from a duplicate-free sequence
/// is removing its only occurrence.
proof fn lemma_remove_first_value(s: Seq<u64>, i: int, id: u64)
    requires
        0 <= i < s.len(),
        s[i] == id,
        forall|j: int| 0 <= j < i ==> s[j] != id,
    ensures
        s.remove(i) =~= s.remove_value(id),
{
    let idx = s.index_of_first(id);
    s.index_of_first_ensures(id);
    assert(idx == Some(i));
}

/// How a finished or dropped job resolves: with the task's output if one
/// was sent, with an error if the channel closed without one.
#[derive(Debug, Clone, Copy, PartialEq, Eq, Structural)]
pub enum JobChannel<T> {
    /// No outcome yet; awaiting suspends.
    Waiting,
    /// The task ran to completion and sent its output.
    Sent(T),
    /// The sender was dropped without sending: the task was cancelled,
    /// panicked, or was never dispatched.
    Closed,
}

/// The error a job resolves to when its task produced no output.  The
/// executor does not distinguish cancellation, rejection and panic.
#[derive(Debug, Clone, Copy, PartialEq, Eq, Structural)]
pub struct Error;

/// The caller-facing result handle, paired with one task: a one-shot
/// channel plus the cancellation flag that dropping the handle sets.
pub struct Job<T> {
    pub channel: JobChannel<T>,
    pub cancelled: bool,
    pub detached: bool,
}

impl<T> Job<T> {
    /// Fresh handle: no outcome, not cancelled, cancel-on-drop armed.
    pub fn new() -> (r: Self)
        ensures
            r.channel is Waiting,
            !r.cancelled,
            !r.detached,
    {
        Job { channel: JobChannel::Waiting, cancelled: false, detached: false }
    }

    /// The task ran to completion: its output is sent, exactly once.
    pub fn deliver(&mut self, output: T)
        requires
            old(self).channel is Waiting,
        ensures
            final(self).channel == JobChannel::Sent(output),
            final(self).cancelled == old(self).cancelled,
            final(self).detached == old(self).detached,
    {
        self.channel = JobChannel::Sent(output);
    }

    /// The task finished without sending: cancelled, panicked, or never
    /// dispatched.  The channel closes, exactly once.
    pub fn close(&mut self)
        requires
            old(self).channel is Waiting,
        ensures
            final(self).channel is Closed,
            final(self).cancelled == old(self).cancelled,
            final(self).detached == old(self).detached,
    {
        self.channel = JobChannel::Closed;
    }

    /// Disarms cancel-on-drop; the task keeps running unobserved.
    pub fn detach(self) -> (r: Self)
        ensures
            r.detached,
            r.channel == self.channel,
            r.cancelled == self.cancelled,
    {
        Job { detached: true, ..self }
    }

    /// Dropping the handle requests cancellation — unless detached.
    pub fn drop_handle(&mut self)
        ensures
            final(self).channel == old(self).channel,
            final(self).detached == old(self).detached,
            final(self).cancelled == (old(self).cancelled || !old(self).detached),
    {
        if !self.detached {
            self.cancelled = true;
        }
    }

    /// Awaits the settled handle: the task's output when one was sent, an
    /// error when the channel closed without one — exactly one of the two.
    pub fn take(self) -> (r: Result<T, Error>)
        requires
            !(self.channel is Waiting),
        ensures
            self.channel matches JobChannel::Sent(v) ==> r == Result::<T, Error>::Ok(v),
            self.channel is Closed ==> r == Result::<T, Error>::Err(Error),
    {
        match self.channel {
            JobChannel::Sent(v) => Ok(v),
            JobChannel::Closed => Err(Error),
            // excluded by the precondition: the handle is settled
            JobChannel::Waiting => Err(Error),
        }
    }
}

/// Work that completes without cancellation resolves its job to `Ok` of
/// exactly the output it produced.
pub proof fn lemma_completed_work_resolves_ok<T>(job: Job<T>, output: T)
    requires
        job.channel is Waiting,
    ensures
        (Job { channel: JobChannel::Sent(output), ..job }).channel matches JobChannel::Sent(v) && v
            == output,
{
}

/// Requesting shutdown twice, or more, leaves exactly the state that one
/// request leaves; and shutdown never touches queued or running tasks.
pub proof fn lemma_shutdown_idempotent(v: PoolView)
    ensures
        shutdown_spec(shutdown_spec(v)) == shutdown_spec(v),
        shutdown_spec(v).high == v.high,
        shutdown_spec(v).low == v.low,
        shutdown_spec(v).running == v.running,
{
}

/// No submission is accepted once shutdown was requested, however often
/// the pool is asked, on this handle or any clone: the pool is unchanged
/// and the caller's job resolves to an error.
pub proof fn lemma_no_submission_after_shutdown(v: PoolView, priority: Priority)
    ensures
        submit_spec(shutdown_spec(v), priority).1 is None,
        submit_spec(shutdown_spec(v), priority).0 == shutdown_spec(v),
{
}

/// Joining is idempotent: the state a completed `join` leaves is a fixed
/// point of shutting down, of draining, and of joining again — so a second
/// `join`, from this handle or a clone, finds the work already done and
/// returns at once.
pub proof fn lemma_join_idempotent(v: PoolView)
    ensures
        joined(joined(v)) == joined(v),
        shutdown_spec(joined(v)) == joined(v),
        joined(shutdown_spec(v)) == joined(v),
        complete_drain_spec(joined(v)) =~~= joined(v),
{
    assert(joined(joined(v)) =~~= joined(v));
    assert(joined(shutdown_spec(v)) =~~= joined(v));
}

/// Draining terminates: every completed task lowers the running count by
/// one, so after the tasks running at shutdown have finished, the drain
/// completes and reaches exactly the joined state — `join` cannot hang.
pub proof fn lemma_drain_terminates(v: PoolView)
    requires
        v.phase == Phase::Draining,
        v.running.len() == 0,
    ensures
        complete_drain_spec(v) =~~= joined(v),
{
}

/// Relies on num_cpus::get: the number of logical CPUs of this machine,
/// which its documentation promises is at least 1.
#[verifier::external_body]
pub fn get_parallelism() -> (r: usize)
    ensures
        r >= 1,
{
    num_cpus::get()
}

} // verus!
