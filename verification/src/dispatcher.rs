//! The queues of the multithreaded test dispatcher: background work ordered
//! by priority and first-in first-out within a priority, timers ordered by
//! due time and then by the order they were scheduled, the count of work in
//! flight, and the number of worker threads.

use vstd::prelude::*;
use std::collections::VecDeque;
use crate::text::{decimal_seq, push_decimal, push_str};

verus! {

/// The priority of background work.
#[derive(Clone, Copy, Debug, PartialEq, Eq, Structural)]
pub enum TaskPriority {
    High,
    Medium,
    Low,
}

/// The fewest worker threads.
pub const MIN_THREADS: usize = 2;
/// The most worker threads.
pub const MAX_THREADS: usize = 8;

/// The number of worker threads: the available parallelism clamped to
/// `MIN_THREADS..=MAX_THREADS`, or `MIN_THREADS` when it is unknown.
pub fn worker_count(available_parallelism: Option<usize>) -> (r: usize)
    ensures
        r == match available_parallelism {
            Some(n) => if n < MIN_THREADS {
                MIN_THREADS
            } else if n > MAX_THREADS {
                MAX_THREADS
            } else {
                n
            },
            None => MIN_THREADS,
        },
        MIN_THREADS <= r <= MAX_THREADS,
{
    match available_parallelism {
        Some(n) => if n < MIN_THREADS {
            MIN_THREADS
        } else if n > MAX_THREADS {
            MAX_THREADS
        } else {
            n
        },
        None => MIN_THREADS,
    }
}

/// Background work waiting for a worker, one queue per priority.
pub struct BackgroundQueueState<T> {
    high: VecDeque<T>,
    normal: VecDeque<T>,
    low: VecDeque<T>,
}

impl<T> BackgroundQueueState<T> {
    /// The waiting work of each priority, oldest first.
    pub closed spec fn queued(&self, priority: TaskPriority) -> Seq<T> {
        match priority {
            TaskPriority::High => self.high@,
            TaskPriority::Medium => self.normal@,
            TaskPriority::Low => self.low@,
        }
    }

    /// No work waits.
    pub fn new() -> (r: Self)
        ensures
            forall|p: TaskPriority| r.queued(p) == Seq::<T>::empty(),
    {
        BackgroundQueueState { high: VecDeque::new(), normal: VecDeque::new(), low: VecDeque::new() }
    }

    /// Queues work behind the work of the same priority.
    pub fn push(&mut self, priority: TaskPriority, item: T)
        ensures
            final(self).queued(priority) == old(self).queued(priority).push(item),
            forall|p: TaskPriority| p != priority ==> final(self).queued(p) == old(self).queued(p),
    {
        match priority {
            TaskPriority::High => self.high.push_back(item),
            TaskPriority::Medium => self.normal.push_back(item),
            TaskPriority::Low => self.low.push_back(item),
        }
    }

    /// Takes the oldest work of the highest priority that has any; `None`
    /// when no work waits (a worker then waits for more).
    pub fn pop(&mut self) -> (r: Option<T>)
        ensures
            old(self).queued(TaskPriority::High).len() > 0 ==> {
                &&& r == Some(old(self).queued(TaskPriority::High)[0])
                &&& final(self).queued(TaskPriority::High) == old(self).queued(
                    TaskPriority::High,
                ).drop_first()
                &&& final(self).queued(TaskPriority::Medium) == old(self).queued(TaskPriority::Medium)
                &&& final(self).queued(TaskPriority::Low) == old(self).queued(TaskPriority::Low)
            },
            old(self).queued(TaskPriority::High).len() == 0 && old(self).queued(
                TaskPriority::Medium,
            ).len() > 0 ==> {
                &&& r == Some(old(self).queued(TaskPriority::Medium)[0])
                &&& final(self).queued(TaskPriority::Medium) == old(self).queued(
                    TaskPriority::Medium,
                ).drop_first()
                &&& final(self).queued(TaskPriority::High) == old(self).queued(TaskPriority::High)
                &&& final(self).queued(TaskPriority::Low) == old(self).queued(TaskPriority::Low)
            },
            old(self).queued(TaskPriority::High).len() == 0 && old(self).queued(
                TaskPriority::Medium,
            ).len() == 0 && old(self).queued(TaskPriority::Low).len() > 0 ==> {
                &&& r == Some(old(self).queued(TaskPriority::Low)[0])
                &&& final(self).queued(TaskPriority::Low) == old(self).queued(
                    TaskPriority::Low,
                ).drop_first()
                &&& final(self).queued(TaskPriority::High) == old(self).queued(TaskPriority::High)
                &&& final(self).queued(TaskPriority::Medium) == old(self).queued(TaskPriority::Medium)
            },
            old(self).queued(TaskPriority::High).len() == 0 && old(self).queued(
                TaskPriority::Medium,
            ).len() == 0 && old(self).queued(TaskPriority::Low).len() == 0 ==> {
                &&& r is None
                &&& forall|p: TaskPriority| final(self).queued(p) == old(self).queued(p)
            },
    {
        if let Some(item) = self.high.pop_front() {
            return Some(item);
        }
        if let Some(item) = self.normal.pop_front() {
            return Some(item);
        }
        if let Some(item) = self.low.pop_front() {
            return Some(item);
        }
        None
    }
}

/// A timer: when it is due, the order in which it was scheduled, and its work.
pub struct TimerEntry<T> {
    pub due: u64,
    pub sequence: u64,
    pub item: T,
}

/// Whether timer `a` fires before timer `b`: earlier due time first, then
/// earlier scheduling.
pub open spec fn fires_before(a_due: u64, a_seq: u64, b_due: u64, b_seq: u64) -> bool {
    a_due < b_due || (a_due == b_due && a_seq < b_seq)
}

/// Timers waiting to fire.
pub struct TimerQueueState<T> {
    entries: Vec<TimerEntry<T>>,
    next_sequence: u64,
}

impl<T> TimerQueueState<T> {
    /// The waiting timers, in no particular order.
    pub closed spec fn timers(&self) -> Seq<TimerEntry<T>> {
        self.entries@
    }

    /// The sequence number the next timer gets.
    pub closed spec fn next_seq(&self) -> u64 {
        self.next_sequence
    }

    /// No timer waits.
    pub fn new() -> (r: Self)
        ensures
            r.timers().len() == 0,
            r.next_seq() == 0,
    {
        TimerQueueState { entries: Vec::new(), next_sequence: 0 }
    }

    /// Schedules work to run at `due`; timers are numbered in scheduling
    /// order, the numbers wrapping around.
    pub fn push(&mut self, due: u64, item: T)
        ensures
            final(self).timers().len() == old(self).timers().len() + 1,
            forall|k: int|
                0 <= k < old(self).timers().len() ==> #[trigger] final(self).timers()[k] == old(
                    self,
                ).timers()[k],
            final(self).timers().last().due == due,
            final(self).timers().last().sequence == old(self).next_seq(),
            final(self).timers().last().item == item,
            final(self).next_seq() == (if old(self).next_seq() == u64::MAX {
                0
            } else {
                (old(self).next_seq() + 1) as u64
            }),
    {
        let sequence = self.next_sequence;
        self.next_sequence = if self.next_sequence == u64::MAX {
            0
        } else {
            self.next_sequence + 1
        };
        self.entries.push(TimerEntry { due, sequence, item });
    }

    /// The index of the timer that fires first, if any.
    fn first_index(&self) -> (r: Option<usize>)
        ensures
            r is None <==> self.timers().len() == 0,
            r matches Some(i) ==> i < self.timers().len() && forall|k: int|
                0 <= k < self.timers().len() && k != i ==> !fires_before(
                    (#[trigger] self.timers()[k]).due,
                    self.timers()[k].sequence,
                    self.timers()[i as int].due,
                    self.timers()[i as int].sequence,
                ),
    {
        if self.entries.len() == 0 {
            return None;
        }
        let mut best: usize = 0;
        let mut k: usize = 1;
        while k < self.entries.len()
            invariant
                1 <= k <= self.entries@.len(),
                best < k,
                forall|j: int|
                    0 <= j < k && j != best ==> !fires_before(
                        (#[trigger] self.entries@[j]).due,
                        self.entries@[j].sequence,
                        self.entries@[best as int].due,
                        self.entries@[best as int].sequence,
                    ),
            decreases self.entries@.len() - k,
        {
            let e = &self.entries[k];
            let b = &self.entries[best];
            if e.due < b.due || (e.due == b.due && e.sequence < b.sequence) {
                best = k;
            }
            k = k + 1;
        }
        Some(best)
    }

    /// When the first timer is due, if any timer waits.
    pub fn next_deadline(&self) -> (r: Option<u64>)
        ensures
            r is None <==> self.timers().len() == 0,
            r matches Some(d) ==> exists|i: int|
                0 <= i < self.timers().len() && (#[trigger] self.timers()[i]).due == d && forall|k: int|
                    0 <= k < self.timers().len() ==> d <= (#[trigger] self.timers()[k]).due,
    {
        match self.first_index() {
            Some(i) => {
                let d = self.entries[i].due;
                proof {
                    assert forall|k: int| 0 <= k < self.timers().len() implies d <= (
                    #[trigger] self.timers()[k]).due by {
                        if k != i {
                            assert(!fires_before(
                                self.timers()[k].due,
                                self.timers()[k].sequence,
                                self.timers()[i as int].due,
                                self.timers()[i as int].sequence,
                            ));
                        }
                    }
                }
                Some(d)
            },
            None => None,
        }
    }

    /// Takes the work of the timer that fires first, when it is due at
    /// `now`; leaves the queue as it is otherwise.
    pub fn pop_due(&mut self, now: u64) -> (r: Option<T>)
        ensures
            r is None ==> final(self).timers() == old(self).timers(),
            r is None ==> forall|k: int|
                0 <= k < old(self).timers().len() ==> (#[trigger] old(self).timers()[k]).due > now,
            r is Some ==> exists|i: int|
                0 <= i < old(self).timers().len() && {
                    let t = #[trigger] old(self).timers()[i];
                    &&& r == Some(t.item)
                    &&& t.due <= now
                    &&& final(self).timers() == old(self).timers().remove(i)
                    &&& forall|k: int|
                        0 <= k < old(self).timers().len() && k != i ==> !fires_before(
                            (#[trigger] old(self).timers()[k]).due,
                            old(self).timers()[k].sequence,
                            t.due,
                            t.sequence,
                        )
                },
            final(self).next_seq() == old(self).next_seq(),
    {
        match self.first_index() {
            Some(i) => {
                if self.entries[i].due <= now {
                    let entry = self.entries.remove(i);
                    proof {
                        assert(old(self).timers()[i as int] == entry);
                    }
                    Some(entry.item)
                } else {
                    proof {
                        assert forall|k: int| 0 <= k < old(self).timers().len() implies (
                        #[trigger] old(self).timers()[k]).due > now by {
                            if k != i {
                                assert(!fires_before(
                                    self.timers()[k].due,
                                    self.timers()[k].sequence,
                                    self.timers()[i as int].due,
                                    self.timers()[i as int].sequence,
                                ));
                            }
                        }
                    }
                    None
                }
            },
            None => None,
        }
    }

    /// Drops every waiting timer and returns how many were dropped.
    pub fn cancel_all(&mut self) -> (r: usize)
        ensures
            r == old(self).timers().len(),
            final(self).timers().len() == 0,
            final(self).next_seq() == old(self).next_seq(),
    {
        let count = self.entries.len();
        self.entries.clear();
        count
    }
}

/// The count of background work that is queued or running.
pub struct IdleTracker {
    pub inflight: usize,
}

impl IdleTracker {
    /// Counts new work; the count is bounded by the work a machine can hold.
    pub fn increment(&mut self)
        requires
            old(self).inflight < usize::MAX,
        ensures
            final(self).inflight == old(self).inflight + 1,
    {
        self.inflight = self.inflight + 1;
    }

    /// Counts finished work; it never finishes more than was counted.
    pub fn decrement(&mut self)
        requires
            old(self).inflight > 0,
        ensures
            final(self).inflight == old(self).inflight - 1,
    {
        self.inflight = self.inflight - 1;
    }

    /// Whether no work is queued or running.
    pub fn is_idle(&self) -> (r: bool)
        ensures
            r == (self.inflight == 0),
    {
        self.inflight == 0
    }
}

/// What the main thread does next while it runs the dispatcher until idle.
#[derive(Clone, Copy, Debug, PartialEq, Eq, Structural)]
pub enum IdleStep {
    /// Run one queued main-thread task.
    RunMainTask,
    /// A timer is due and its work is about to be queued: wait briefly.
    AwaitDueTimer,
    /// Background work is in flight: wait until it finishes.
    AwaitWork,
    /// Nothing is queued, due or in flight: stop.
    Idle,
}

/// The next step of running until idle: main-thread work first, then a
/// timer that is due at `now`, then background work in flight. Timers that
/// are due later are not waited for.
pub fn idle_step(main_queued: usize, next_deadline: Option<u64>, now: u64, inflight: usize) -> (r:
    IdleStep)
    ensures
        r == (if main_queued > 0 {
            IdleStep::RunMainTask
        } else if next_deadline matches Some(d) && d <= now {
            IdleStep::AwaitDueTimer
        } else if inflight == 0 {
            IdleStep::Idle
        } else {
            IdleStep::AwaitWork
        }),
{
    if main_queued > 0 {
        return IdleStep::RunMainTask;
    }
    match next_deadline {
        Some(d) => if d <= now {
            return IdleStep::AwaitDueTimer;
        },
        None => {},
    }
    if inflight == 0 {
        IdleStep::Idle
    } else {
        IdleStep::AwaitWork
    }
}

/// What the main thread does next while it runs the dispatcher until a
/// condition holds.
#[derive(Clone, Copy, Debug, PartialEq, Eq, Structural)]
pub enum UntilStep {
    /// The condition holds: stop.
    Done,
    /// Run one queued main-thread task.
    RunMainTask,
    /// Wait for new work or wakeups, at most until the given deadline.
    AwaitUntil(u64),
    /// Wait for new work or wakeups.
    Await,
}

/// The next step of running until a condition holds: stop once it holds,
/// else run main-thread work, else wait, until the next timer when one
/// waits, since future timers may be what makes the condition hold.
pub fn until_step(ready: bool, main_queued: usize, next_deadline: Option<u64>) -> (r: UntilStep)
    ensures
        r == (if ready {
            UntilStep::Done
        } else if main_queued > 0 {
            UntilStep::RunMainTask
        } else {
            match next_deadline {
                Some(d) => UntilStep::AwaitUntil(d),
                None => UntilStep::Await,
            }
        }),
{
    if ready {
        UntilStep::Done
    } else if main_queued > 0 {
        UntilStep::RunMainTask
    } else {
        match next_deadline {
            Some(d) => UntilStep::AwaitUntil(d),
            None => UntilStep::Await,
        }
    }
}

/// What blocking on a future does after polling it.
#[derive(Clone, Copy, Debug, PartialEq, Eq, Structural)]
pub enum BlockStep {
    /// The future is ready: return its output.
    Finish,
    /// Park the thread until woken, at most for the given time when there
    /// is a deadline.
    Park(Option<u64>),
}

/// How blocking on a future begins.
#[derive(Clone, Copy, Debug, PartialEq, Eq, Structural)]
pub enum BlockStart {
    /// A zero timeout: the future is given back without being polled.
    GiveBack,
    /// Poll the future, until the deadline when there is one.
    Poll(Option<u64>),
}

/// How blocking with `timeout` from `now` begins: a zero timeout gives the
/// future back before any poll; any other timeout polls it until its
/// deadline, and no timeout polls it with no deadline.
pub fn block_start(timeout: Option<u64>, now: u64) -> (r: BlockStart)
    requires
        timeout matches Some(t) ==> now + t <= u64::MAX,
    ensures
        r == (match timeout {
            Some(0) => BlockStart::GiveBack,
            Some(t) => BlockStart::Poll(Some((now + t) as u64)),
            None => BlockStart::Poll(None),
        }),
{
    if timeout == Some(0u64) {
        BlockStart::GiveBack
    } else {
        BlockStart::Poll(block_deadline(timeout, now))
    }
}

/// The deadline of blocking with `timeout` from `now`, if any: `now` plus
/// the timeout. A zero timeout does not get this far (see [`block_start`]).
pub fn block_deadline(timeout: Option<u64>, now: u64) -> (r: Option<u64>)
    requires
        timeout matches Some(t) ==> now + t <= u64::MAX,
    ensures
        r == (match timeout {
            Some(t) => Some((now + t) as u64),
            None => None,
        }),
{
    match timeout {
        Some(t) => Some(now + t),
        None => None,
    }
}

/// The step after a poll: finish when ready, else park until the deadline,
/// for no time once it has passed.
pub fn block_step(ready: bool, deadline: Option<u64>, now: u64) -> (r: BlockStep)
    ensures
        r == (if ready {
            BlockStep::Finish
        } else {
            BlockStep::Park(
                match deadline {
                    Some(d) => Some(if d > now { (d - now) as u64 } else { 0u64 }),
                    None => None,
                },
            )
        }),
{
    if ready {
        return BlockStep::Finish;
    }
    let timeout = match deadline {
        Some(d) => Some(if d > now { d - now } else { 0 }),
        None => None,
    };
    BlockStep::Park(timeout)
}

/// Whether blocking gives the future back after parking: only when the
/// park ended without a wakeup and the deadline has passed.
pub fn block_gives_up(woken: bool, deadline: Option<u64>, now: u64) -> (r: bool)
    ensures
        r == (!woken && (deadline matches Some(d) && d < now)),
{
    if woken {
        return false;
    }
    match deadline {
        Some(d) => d < now,
        None => false,
    }
}

/// The diagnostic summary of a dispatcher that does not reach quiescence.
pub open spec fn debug_state_text(inflight: usize, main: usize, timers: usize) -> Seq<char> {
    "ThreadedDispatcher { inflight: "@ + decimal_seq(inflight as nat) + ", main: "@ + decimal_seq(
        main as nat,
    ) + ", timers: "@ + decimal_seq(timers as nat) + " }"@
}

/// A concise summary of the work in flight, queued for the main thread and
/// waiting on timers.
pub fn debug_state(inflight: usize, main: usize, timers: usize) -> (r: String)
    ensures
        r@ == debug_state_text(inflight, main, timers),
{
    let mut out = String::new();
    push_str(&mut out, "ThreadedDispatcher { inflight: ");
    push_decimal(&mut out, inflight as u64);
    push_str(&mut out, ", main: ");
    push_decimal(&mut out, main as u64);
    push_str(&mut out, ", timers: ");
    push_decimal(&mut out, timers as u64);
    push_str(&mut out, " }");
    proof {
        assert(out@ =~= debug_state_text(inflight, main, timers));
    }
    out
}

/// The worker pool keeps between 2 and 8 threads.
pub proof fn law_dispatcher_constants()
    ensures
        MIN_THREADS == 2,
        MAX_THREADS == 8,
{
}

} // verus!
