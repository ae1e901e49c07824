//! Task-timing profiler bookkeeping: the switch that turns recording on and
//! off, the per-thread ring buffer of recorded timings, and the collector
//! that hands out only the timings it has not handed out before.
//!
//! Timings are opaque to this module; clocks, thread identities and the
//! process-wide registry of threads are kept by the caller.

use vstd::prelude::*;
use std::collections::HashMap;
use std::collections::VecDeque;
use vstd::std_specs::hash::{obeys_key_model, builds_valid_hashers};

verus! {

broadcast use vstd::std_specs::hash::group_hash_axioms;

/// Whether a task ran to completion or was cancelled.
#[derive(Clone, Copy, Debug, PartialEq, Eq, Structural)]
pub enum TaskTimingStatus {
    Completed,
    Cancelled,
}

/// Whether the profiler records, and the generation of the current
/// recording session; every change of the switch starts a new generation.
#[derive(Clone, Copy, Debug, PartialEq, Eq, Structural)]
pub struct ProfilerSwitch {
    pub enabled: bool,
    pub generation: u64,
}

/// A timing that has started: where it started, when, and in which
/// recording session.
#[derive(Clone, Copy, Debug, PartialEq, Eq)]
pub struct TaskTimingHandle<L, I> {
    pub location: L,
    pub start: I,
    pub generation: u64,
}

/// The next generation number; the counter wraps around.
pub open spec fn next_generation(g: u64) -> u64 {
    if g == u64::MAX {
        0
    } else {
        (g + 1) as u64
    }
}

impl ProfilerSwitch {
    /// A switch that is off, in generation zero.
    pub fn new() -> (r: Self)
        ensures
            !r.enabled,
            r.generation == 0,
    {
        ProfilerSwitch { enabled: false, generation: 0 }
    }
}

/// Whether the profiler records.
pub fn is_enabled(switch: &ProfilerSwitch) -> (r: bool)
    ensures
        r == switch.enabled,
{
    switch.enabled
}

/// Turns the switch on or off. Returns whether the state changed; a change
/// starts a new generation, so that timings started before it are dropped
/// when they end.
fn flip_switch(switch: &mut ProfilerSwitch, enabled: bool) -> (r: bool)
    ensures
        r == (old(switch).enabled != enabled),
        final(switch).enabled == enabled,
        final(switch).generation == (if r {
            next_generation(old(switch).generation)
        } else {
            old(switch).generation
        }),
{
    let previous = switch.enabled;
    switch.enabled = enabled;
    if previous == enabled {
        return false;
    }
    switch.generation = if switch.generation == u64::MAX {
        0
    } else {
        switch.generation + 1
    };
    true
}

/// Starts a timing when the profiler records.
pub fn record_start<L, I>(switch: &ProfilerSwitch, location: L, now: I) -> (r: Option<
    TaskTimingHandle<L, I>,
>)
    ensures
        switch.enabled <==> r is Some,
        r matches Some(h) ==> h == (TaskTimingHandle {
            location,
            start: now,
            generation: switch.generation,
        }),
{
    if !switch.enabled {
        return None;
    }
    Some(TaskTimingHandle { location, start: now, generation: switch.generation })
}

/// Whether a timing that ends now is recorded: only while the profiler
/// records, and only in the generation in which the timing started.
pub fn record_end_accepted<L, I>(switch: &ProfilerSwitch, handle: &TaskTimingHandle<L, I>) -> (r:
    bool)
    ensures
        r == (switch.enabled && handle.generation == switch.generation),
{
    switch.enabled && handle.generation == switch.generation
}

/// The timing of one task across its polls: it starts at the first poll,
/// not when the task is spawned, and ends once, when the task completes or
/// is dropped unfinished.
pub struct TaskTimer<L, I> {
    started: bool,
    timing: Option<TaskTimingHandle<L, I>>,
}

impl<L, I> TaskTimer<L, I> {
    /// Whether the task has been polled.
    pub closed spec fn is_started(&self) -> bool {
        self.started
    }

    /// The timing in progress, if any.
    pub closed spec fn pending(&self) -> Option<TaskTimingHandle<L, I>> {
        self.timing
    }

    /// The timer of a task that has not been polled yet.
    pub fn new() -> (r: Self)
        ensures
            !r.is_started(),
            r.pending() is None,
    {
        TaskTimer { started: false, timing: None }
    }

    /// Called before each poll: the first poll starts the timing, when the
    /// profiler records; later polls change nothing.
    pub fn before_poll(&mut self, switch: &ProfilerSwitch, location: L, now: I)
        ensures
            final(self).is_started(),
            old(self).is_started() ==> final(self).pending() == old(self).pending(),
            !old(self).is_started() ==> final(self).pending() == (if switch.enabled {
                Some(TaskTimingHandle { location, start: now, generation: switch.generation })
            } else {
                None
            }),
    {
        if !self.started {
            self.started = true;
            self.timing = record_start(switch, location, now);
        }
    }

    /// Called after each poll: when the task is ready, its timing in
    /// progress is handed out to be ended as completed.
    pub fn after_poll(&mut self, ready: bool) -> (r: Option<TaskTimingHandle<L, I>>)
        ensures
            final(self).is_started() == old(self).is_started(),
            ready ==> r == old(self).pending() && final(self).pending() is None,
            !ready ==> r is None && final(self).pending() == old(self).pending(),
    {
        if ready {
            self.timing.take()
        } else {
            None
        }
    }

    /// Called when the task is dropped: a timing still in progress is
    /// handed out to be ended as cancelled.
    pub fn on_drop(&mut self) -> (r: Option<TaskTimingHandle<L, I>>)
        ensures
            final(self).is_started() == old(self).is_started(),
            r == old(self).pending(),
            final(self).pending() is None,
    {
        self.timing.take()
    }
}

/// A timing started in one recording session is not recorded after the
/// profiler has been switched: every change of the switch moves to the next
/// generation, which differs from the one the timing started in.
pub proof fn lemma_switch_change_drops_started_timings<L, I>(
    before: ProfilerSwitch,
    after: ProfilerSwitch,
    handle: TaskTimingHandle<L, I>,
)
    requires
        handle.generation == before.generation,
        after.generation == next_generation(before.generation),
    ensures
        !(after.enabled && handle.generation == after.generation),
{
}

/// The last `n` items of `s`, or all of them when there are fewer.
pub open spec fn last_n<T>(s: Seq<T>, n: nat) -> Seq<T> {
    if s.len() <= n {
        s
    } else {
        s.subrange(s.len() - n, s.len() as int)
    }
}

/// The timings recorded on one thread: a ring buffer holding at most
/// `capacity` of the most recent timings, and the number of timings pushed
/// since the last clear.
pub struct ThreadTimingState<T> {
    thread_name: Option<String>,
    thread_key: u64,
    timings: VecDeque<T>,
    total_pushed: u64,
    capacity: usize,
    history: Ghost<Seq<T>>,
}

/// A copy of one thread's recorded timings.
#[derive(Clone, Debug)]
pub struct ThreadTaskTimings<T> {
    pub thread_name: Option<String>,
    pub thread_key: u64,
    pub timings: Vec<T>,
    pub total_pushed: u64,
}

impl<T: Copy> ThreadTimingState<T> {
    /// The name of the thread.
    pub closed spec fn name(&self) -> Option<String> {
        self.thread_name
    }

    /// The key that identifies the thread.
    pub closed spec fn key(&self) -> u64 {
        self.thread_key
    }

    /// Every timing pushed since the last clear, oldest first.
    pub closed spec fn pushed(&self) -> Seq<T> {
        self.history@
    }

    /// The timings held, oldest first.
    pub closed spec fn held(&self) -> Seq<T> {
        self.timings@
    }

    /// The most timings held at once.
    pub closed spec fn max_timings(&self) -> nat {
        self.capacity as nat
    }

    /// The count of timings pushed since the last clear.
    pub closed spec fn pushed_count(&self) -> u64 {
        self.total_pushed
    }

    /// The buffer holds exactly the most recent timings that fit, and counts
    /// every timing pushed since the last clear.
    pub closed spec fn wf(&self) -> bool {
        &&& self.capacity > 0
        &&& self.total_pushed == self.history@.len()
        &&& self.timings@ == last_n(self.history@, self.capacity as nat)
    }

    /// An empty buffer that holds at most `capacity` timings.
    pub fn new(thread_name: Option<String>, thread_key: u64, capacity: usize) -> (r: Self)
        requires
            capacity > 0,
        ensures
            r.wf(),
            r.name() == thread_name,
            r.key() == thread_key,
            r.max_timings() == capacity,
            r.pushed() == Seq::<T>::empty(),
    {
        ThreadTimingState {
            thread_name,
            thread_key,
            timings: VecDeque::new(),
            total_pushed: 0,
            capacity,
            history: Ghost(Seq::empty()),
        }
    }

    /// Records a timing, dropping the oldest ones when the buffer is full.
    pub fn push(&mut self, timing: T)
        requires
            old(self).wf(),
            old(self).pushed_count() < u64::MAX,
        ensures
            final(self).wf(),
            final(self).pushed() == old(self).pushed().push(timing),
            final(self).max_timings() == old(self).max_timings(),
            final(self).key() == old(self).key(),
            final(self).name() == old(self).name(),
    {
        let ghost h = self.history@.push(timing);
        let ghost cap = self.capacity as nat;
        while self.timings.len() >= self.capacity
            invariant
                self.capacity == cap,
                self.total_pushed == old(self).pushed_count(),
                self.history@ == old(self).pushed(),
                self.thread_key == old(self).key(),
                self.thread_name == old(self).name(),
                self.total_pushed < u64::MAX,
                h == self.history@.push(timing),
                cap > 0,
                self.timings@.len() <= last_n(self.history@, cap).len(),
                self.timings@ == last_n(self.history@, cap).subrange(
                    last_n(self.history@, cap).len() - self.timings@.len(),
                    last_n(self.history@, cap).len() as int,
                ),
                self.timings@.len() <= cap,
                self.timings@.len() == last_n(self.history@, cap).len() || self.timings@.len()
                    >= cap - 1,
            decreases self.timings@.len(),
        {
            self.timings.pop_front();
        }
        self.timings.push_back(timing);
        self.total_pushed = self.total_pushed + 1;
        proof {
            let old_h = self.history@;
            self.history@ = h;
            let t = last_n(old_h, cap);
            assert(self.timings@.len() <= cap);
            if h.len() <= cap {
                assert(old_h.len() < cap);
                assert(t == old_h);
                assert(self.timings@.len() == old_h.len() + 1);
                assert(self.timings@ =~= h);
            } else {
                assert(t.len() == cap);
                assert(self.timings@.len() == cap);
                assert forall|k: int| 0 <= k < cap implies #[trigger] self.timings@[k] == last_n(
                    h,
                    cap,
                )[k] by {
                    if k < cap - 1 {
                        assert(self.timings@[k] == t[k + 1]);
                        assert(t[k + 1] == old_h[old_h.len() - cap + k + 1]);
                        assert(last_n(h, cap)[k] == h[h.len() - cap + k]);
                    }
                }
                assert(self.timings@ =~= last_n(h, cap));
            }
        }
    }

    /// A copy of the held timings and of the pushed count.
    pub fn snapshot(&self) -> (r: ThreadTaskTimings<T>)
        requires
            self.wf(),
        ensures
            r.thread_name == self.name(),
            r.thread_key == self.key(),
            r.timings@ == last_n(self.pushed(), self.max_timings()),
            r.total_pushed == self.pushed().len(),
    {
        let mut timings: Vec<T> = Vec::new();
        let mut i: usize = 0;
        while i < self.timings.len()
            invariant
                i <= self.timings@.len(),
                timings@ == self.timings@.subrange(0, i as int),
            decreases self.timings@.len() - i,
        {
            timings.push(self.timings[i]);
            proof {
                assert(self.timings@.subrange(0, i + 1) =~= self.timings@.subrange(0, i as int).push(
                    self.timings@[i as int],
                ));
            }
            i = i + 1;
        }
        proof {
            assert(self.timings@.subrange(0, self.timings@.len() as int) =~= self.timings@);
        }
        ThreadTaskTimings {
            thread_name: self.thread_name.clone(),
            thread_key: self.thread_key,
            timings,
            total_pushed: self.total_pushed,
        }
    }

    /// The key of the thread whose timings these are.
    pub fn thread_key(&self) -> (r: u64)
        ensures
            r == self.key(),
    {
        self.thread_key
    }

    /// The number of timings pushed since the last clear.
    pub fn total_pushed(&self) -> (r: u64)
        ensures
            r == self.pushed_count(),
    {
        self.total_pushed
    }

    /// Forgets every recorded timing and resets the pushed count.
    pub fn clear(&mut self)
        requires
            old(self).wf(),
        ensures
            final(self).wf(),
            final(self).pushed() == Seq::<T>::empty(),
            final(self).pushed_count() == 0,
            final(self).max_timings() == old(self).max_timings(),
            final(self).key() == old(self).key(),
            final(self).name() == old(self).name(),
    {
        self.timings.clear();
        self.total_pushed = 0;
        proof {
            self.history@ = Seq::empty();
        }
    }
}

/// Turns recording on or off, given the timing buffers of every live
/// thread. Returns whether the state changed; a change starts a new
/// generation, so that timings started before it are dropped when they end.
/// When recording is turned off, every thread's recorded timings are
/// forgotten and its pushed count reset; otherwise the buffers are left as
/// they are.
pub fn set_enabled<T: Copy>(
    switch: &mut ProfilerSwitch,
    threads: &mut Vec<ThreadTimingState<T>>,
    enabled: bool,
) -> (r: bool)
    requires
        forall|i: int| 0 <= i < old(threads)@.len() ==> (#[trigger] old(threads)@[i]).wf(),
    ensures
        r == (old(switch).enabled != enabled),
        final(switch).enabled == enabled,
        final(switch).generation == (if r {
            next_generation(old(switch).generation)
        } else {
            old(switch).generation
        }),
        final(threads)@.len() == old(threads)@.len(),
        r && !enabled ==> forall|i: int|
            0 <= i < final(threads)@.len() ==> {
                &&& (#[trigger] final(threads)@[i]).wf()
                &&& final(threads)@[i].pushed() == Seq::<T>::empty()
                &&& final(threads)@[i].pushed_count() == 0
                &&& final(threads)@[i].max_timings() == old(threads)@[i].max_timings()
                &&& final(threads)@[i].key() == old(threads)@[i].key()
                &&& final(threads)@[i].name() == old(threads)@[i].name()
            },
        !(r && !enabled) ==> final(threads)@ == old(threads)@,
{
    let changed = flip_switch(switch, enabled);
    if changed && !enabled {
        let mut i: usize = 0;
        while i < threads.len()
            invariant
                0 <= i <= threads@.len(),
                threads@.len() == old(threads)@.len(),
                forall|j: int| i <= j < threads@.len() ==> threads@[j] == old(threads)@[j],
                forall|j: int|
                    0 <= j < i ==> {
                        &&& (#[trigger] threads@[j]).wf()
                        &&& threads@[j].pushed() == Seq::<T>::empty()
                        &&& threads@[j].pushed_count() == 0
                        &&& threads@[j].max_timings() == old(threads)@[j].max_timings()
                        &&& threads@[j].key() == old(threads)@[j].key()
                        &&& threads@[j].name() == old(threads)@[j].name()
                    },
                forall|j: int| 0 <= j < old(threads)@.len() ==> (#[trigger] old(threads)@[j]).wf(),
            decreases threads@.len() - i,
        {
            threads[i].clear();
            i = i + 1;
        }
    }
    changed
}

/// The timings of one thread that a collector had not handed out before.
#[derive(Clone, Debug)]
pub struct ThreadTimingsDelta<T> {
    pub thread_key: u64,
    pub thread_name: Option<String>,
    pub new_timings: Vec<T>,
}

/// Hands out the timings recorded since the previous collection, per thread.
pub struct ProfilingCollector<I> {
    startup_time: I,
    cursors: HashMap<u64, u64>,
}

/// The position in a thread's buffer from which timings are unseen by a
/// collector whose cursor for the thread is `cursor`.
pub open spec fn unseen_start(cursor: u64, len: nat, total_pushed: u64) -> nat {
    let buffer_start: int = if total_pushed >= len { total_pushed - len } else { 0 };
    let skip: int = if cursor >= buffer_start { cursor - buffer_start } else { 0 };
    let skip_index = skip as u64 as usize;
    if skip_index <= len { skip_index as nat } else { len }
}

impl<I: Copy> ProfilingCollector<I> {
    /// The instant from which collected timings are measured.
    pub closed spec fn startup(&self) -> I {
        self.startup_time
    }

    /// The instant from which collected timings are measured.
    pub fn startup_time(&self) -> (r: I)
        ensures
            r == self.startup(),
    {
        self.startup_time
    }

    /// For each thread key, the pushed count at the last collection.
    pub closed spec fn cursor_map(&self) -> Map<u64, u64> {
        self.cursors@
    }

    /// The cursor of a thread: zero when the thread was never collected.
    pub open spec fn cursor_of(&self, key: u64) -> u64 {
        if self.cursor_map().contains_key(key) {
            self.cursor_map()[key]
        } else {
            0
        }
    }

    /// A collector that has seen nothing.
    pub fn new(startup_time: I) -> (r: Self)
        ensures
            r.startup() == startup_time,
            r.cursor_map() == Map::<u64, u64>::empty(),
    {
        ProfilingCollector { startup_time, cursors: HashMap::new() }
    }

    /// Marks the timings of a thread up to `total_pushed` as seen.
    pub fn set_cursor(&mut self, key: u64, total_pushed: u64)
        ensures
            final(self).cursor_map() == old(self).cursor_map().insert(key, total_pushed),
            final(self).startup() == old(self).startup(),
    {
        assert(obeys_key_model::<u64>());
        assert(builds_valid_hashers::<std::hash::RandomState>());
        self.cursors.insert(key, total_pushed);
    }

    /// The cursor of a thread.
    fn cursor(&self, key: u64) -> (r: u64)
        ensures
            r == self.cursor_of(key),
    {
        assert(obeys_key_model::<u64>());
        assert(builds_valid_hashers::<std::hash::RandomState>());
        match self.cursors.get(&key) {
            Some(c) => *c,
            None => 0,
        }
    }

    /// Returns, for each thread in order, the timings not handed out by an
    /// earlier collection, skipping threads with nothing new, and moves each
    /// thread's cursor to its pushed count.
    pub fn collect_unseen<T: Copy>(&mut self, all_timings: Vec<ThreadTaskTimings<T>>) -> (r: Vec<
        ThreadTimingsDelta<T>,
    >)
        requires
            forall|i: int|
                #![trigger all_timings@[i]]
                0 <= i < all_timings@.len() ==> all_timings@[i].timings@.len() <= u64::MAX,
        ensures
            final(self).startup() == old(self).startup(),
            final(self).cursor_map() == cursors_after(old(self).cursor_map(), all_timings@),
            r@.map_values(|d: ThreadTimingsDelta<T>| delta_view(d)) == deltas_of(
                old(self).cursor_map(),
                all_timings@,
            ),
    {
        let ghost start = self.cursor_map();
        let mut deltas: Vec<ThreadTimingsDelta<T>> = Vec::new();
        let mut i: usize = 0;
        while i < all_timings.len()
            invariant
                i <= all_timings@.len(),
                self.startup() == old(self).startup(),
                start == old(self).cursor_map(),
                self.cursor_map() == cursors_after(start, all_timings@.subrange(0, i as int)),
                deltas@.map_values(|d: ThreadTimingsDelta<T>| delta_view(d)) == deltas_of(
                    start,
                    all_timings@.subrange(0, i as int),
                ),
                forall|k: int|
                    #![trigger all_timings@[k]]
                    0 <= k < all_timings@.len() ==> all_timings@[k].timings@.len() <= u64::MAX,
            decreases all_timings@.len() - i,
        {
            let thread = &all_timings[i];
            let ghost pre = all_timings@.subrange(0, i as int);
            let ghost post = all_timings@.subrange(0, i + 1);
            proof {
                assert(post.drop_last() =~= pre);
                assert(post.last() == *thread);
                lemma_cursor_in_prefix(start, all_timings@, i as int);
            }
            let previous_cursor = self.cursor(thread.thread_key);
            let buffer_len = thread.timings.len() as u64;
            let buffer_start = thread.total_pushed.saturating_sub(buffer_len);
            let skip = previous_cursor.saturating_sub(buffer_start) as usize;
            let from = if skip < thread.timings.len() { skip } else { thread.timings.len() };
            let mut unseen: Vec<T> = Vec::new();
            let mut j: usize = from;
            while j < thread.timings.len()
                invariant
                    from <= j <= thread.timings@.len(),
                    unseen@ == thread.timings@.subrange(from as int, j as int),
                decreases thread.timings@.len() - j,
            {
                unseen.push(thread.timings[j]);
                proof {
                    assert(thread.timings@.subrange(from as int, j + 1) =~= thread.timings@.subrange(
                        from as int,
                        j as int,
                    ).push(thread.timings@[j as int]));
                }
                j = j + 1;
            }
            self.set_cursor(thread.thread_key, thread.total_pushed);
            if unseen.len() > 0 {
                deltas.push(
                    ThreadTimingsDelta {
                        thread_key: thread.thread_key,
                        thread_name: thread.thread_name.clone(),
                        new_timings: unseen,
                    },
                );
            }
            i = i + 1;
        }
        proof {
            assert(all_timings@.subrange(0, all_timings@.len() as int) =~= all_timings@);
        }
        deltas
    }

    /// Forgets what was handed out before.
    pub fn reset(&mut self)
        ensures
            final(self).cursor_map() == Map::<u64, u64>::empty(),
            final(self).startup() == old(self).startup(),
    {
        self.cursors.clear();
    }
}

/// The cursors after collecting the threads of `threads` in order.
pub open spec fn cursors_after<T>(start: Map<u64, u64>, threads: Seq<ThreadTaskTimings<T>>) -> Map<
    u64,
    u64,
>
    decreases threads.len(),
{
    if threads.len() == 0 {
        start
    } else {
        cursors_after(start, threads.drop_last()).insert(
            threads.last().thread_key,
            threads.last().total_pushed,
        )
    }
}

/// A map's value for a key, zero when absent.
pub open spec fn cursor_in(m: Map<u64, u64>, key: u64) -> u64 {
    if m.contains_key(key) {
        m[key]
    } else {
        0
    }
}

/// The unseen timings of one thread given the cursors before it.
pub open spec fn unseen_of<T>(cursors: Map<u64, u64>, thread: ThreadTaskTimings<T>) -> Seq<T> {
    thread.timings@.subrange(
        unseen_start(
            cursor_in(cursors, thread.thread_key),
            thread.timings@.len(),
            thread.total_pushed,
        ) as int,
        thread.timings@.len() as int,
    )
}

/// The deltas handed out when collecting the threads of `threads` in order.
pub open spec fn deltas_of<T>(start: Map<u64, u64>, threads: Seq<ThreadTaskTimings<T>>) -> Seq<
    (u64, Option<String>, Seq<T>),
>
    decreases threads.len(),
{
    if threads.len() == 0 {
        Seq::empty()
    } else {
        let before = deltas_of(start, threads.drop_last());
        let t = threads.last();
        let unseen = unseen_of(cursors_after(start, threads.drop_last()), t);
        if unseen.len() > 0 {
            before.push((t.thread_key, t.thread_name, unseen))
        } else {
            before
        }
    }
}

/// The key, name and new timings of a delta.
pub open spec fn delta_view<T>(d: ThreadTimingsDelta<T>) -> (u64, Option<String>, Seq<T>) {
    (d.thread_key, d.thread_name, d.new_timings@)
}

/// The thread keys of a list of snapshots are pairwise distinct.
pub open spec fn distinct_keys<T>(threads: Seq<ThreadTaskTimings<T>>) -> bool {
    forall|i: int, j: int|
        0 <= i < j < threads.len() ==> #[trigger] threads[i].thread_key != #[trigger] threads[j].thread_key
}

/// A snapshot holds no more timings than were pushed.
pub open spec fn consistent_snapshot<T>(t: ThreadTaskTimings<T>) -> bool {
    t.timings@.len() <= t.total_pushed
}

/// After collecting a set of snapshots, collecting the same snapshots again
/// hands out nothing: a collector never hands out a timing twice.
pub proof fn lemma_collect_again_is_empty<T>(start: Map<u64, u64>, threads: Seq<ThreadTaskTimings<T>>)
    requires
        distinct_keys(threads),
        forall|i: int| 0 <= i < threads.len() ==> consistent_snapshot(#[trigger] threads[i]),
    ensures
        deltas_of(cursors_after(start, threads), threads).len() == 0,
{
    let after = cursors_after(start, threads);
    lemma_cursors_after_maps_keys(start, threads);
    lemma_deltas_empty(after, threads, threads.len() as int);
    assert(threads.subrange(0, threads.len() as int) =~= threads);
}

/// A collection hands out exactly the timings a thread pushed since the
/// previous collection, as long as they still fit in its buffer: the
/// snapshot holds the last `capacity` timings of the thread's history, and
/// the cursor is the count pushed at the previous collection.
pub proof fn lemma_collect_hands_out_new_timings<T>(
    cursors: Map<u64, u64>,
    thread: ThreadTaskTimings<T>,
    history: Seq<T>,
    capacity: nat,
)
    requires
        capacity > 0,
        thread.timings@ == last_n(history, capacity),
        thread.total_pushed == history.len(),
        cursor_in(cursors, thread.thread_key) <= history.len(),
        history.len() - cursor_in(cursors, thread.thread_key) <= capacity,
        capacity <= usize::MAX,
    ensures
        unseen_of(cursors, thread) == history.subrange(
            cursor_in(cursors, thread.thread_key) as int,
            history.len() as int,
        ),
{
    let cursor = cursor_in(cursors, thread.thread_key);
    let held = thread.timings@;
    let len = held.len();
    let total = history.len();
    let start = unseen_start(cursor, len, thread.total_pushed);
    assert(len <= capacity);
    assert(total >= len);
    let buffer_start = total - len;
    if total <= capacity {
        assert(held == history);
        assert(buffer_start == 0);
        assert(start == cursor);
    } else {
        assert(len == capacity);
        assert(held == history.subrange(total - capacity, total as int));
        assert(cursor >= buffer_start);
        assert(start == cursor - buffer_start);
    }
    assert(held.subrange(start as int, len as int) =~= history.subrange(cursor as int, total as int));
}

proof fn lemma_cursors_after_maps_keys<T>(start: Map<u64, u64>, threads: Seq<ThreadTaskTimings<T>>)
    requires
        distinct_keys(threads),
    ensures
        forall|i: int|
            0 <= i < threads.len() ==> cursor_in(cursors_after(start, threads), #[trigger] threads[i].thread_key)
                == threads[i].total_pushed,
    decreases threads.len(),
{
    if threads.len() > 0 {
        let pre = threads.drop_last();
        assert(distinct_keys(pre)) by {
            assert forall|i: int, j: int|
                0 <= i < j < pre.len() implies #[trigger] pre[i].thread_key != #[trigger] pre[j].thread_key by {
                assert(pre[i] == threads[i] && pre[j] == threads[j]);
            }
        }
        lemma_cursors_after_maps_keys(start, pre);
        assert forall|i: int|
            0 <= i < threads.len() implies cursor_in(cursors_after(start, threads), #[trigger] threads[i].thread_key)
                == threads[i].total_pushed by {
            if i < threads.len() - 1 {
                assert(pre[i] == threads[i]);
                assert(threads[i].thread_key != threads[threads.len() - 1].thread_key);
            }
        }
    }
}

proof fn lemma_deltas_empty<T>(cursors: Map<u64, u64>, threads: Seq<ThreadTaskTimings<T>>, n: int)
    requires
        0 <= n <= threads.len(),
        distinct_keys(threads),
        forall|i: int| 0 <= i < threads.len() ==> consistent_snapshot(#[trigger] threads[i]),
        forall|i: int|
            0 <= i < threads.len() ==> cursor_in(cursors, #[trigger] threads[i].thread_key)
                == threads[i].total_pushed,
    ensures
        deltas_of(cursors, threads.subrange(0, n)).len() == 0,
    decreases n,
{
    if n > 0 {
        let pre = threads.subrange(0, n);
        assert(pre.drop_last() =~= threads.subrange(0, n - 1));
        lemma_deltas_empty(cursors, threads, n - 1);
        let t = threads[n - 1];
        assert(pre.last() == t);
        lemma_cursor_unchanged_by_others(cursors, threads, n - 1);
        let c = cursors_after(cursors, threads.subrange(0, n - 1));
        assert(cursor_in(c, t.thread_key) == t.total_pushed);
        assert(consistent_snapshot(t));
        assert(t.timings@.len() == t.timings.len());
        assert(unseen_start(t.total_pushed, t.timings@.len(), t.total_pushed) == t.timings@.len());
        assert(unseen_of(c, t).len() == 0);
    } else {
        assert(threads.subrange(0, 0).len() == 0);
    }
}

proof fn lemma_cursor_unchanged_by_others<T>(cursors: Map<u64, u64>, threads: Seq<ThreadTaskTimings<T>>, k: int)
    requires
        0 <= k < threads.len(),
        distinct_keys(threads),
    ensures
        cursor_in(cursors_after(cursors, threads.subrange(0, k)), threads[k].thread_key)
            == cursor_in(cursors, threads[k].thread_key),
    decreases k,
{
    if k > 0 {
        let pre = threads.subrange(0, k);
        assert(pre.drop_last() =~= threads.subrange(0, k - 1));
        assert(pre.last() == threads[k - 1]);
        assert(threads[k - 1].thread_key != threads[k].thread_key);
        lemma_cursor_prefix_other(cursors, threads, k - 1, threads[k].thread_key);
    }
}

proof fn lemma_cursor_prefix_other<T>(cursors: Map<u64, u64>, threads: Seq<ThreadTaskTimings<T>>, m: int, key: u64)
    requires
        0 <= m < threads.len(),
        forall|i: int| 0 <= i <= m ==> #[trigger] threads[i].thread_key != key,
    ensures
        cursor_in(cursors_after(cursors, threads.subrange(0, m + 1)), key) == cursor_in(cursors, key),
    decreases m,
{
    let pre = threads.subrange(0, m + 1);
    assert(pre.drop_last() =~= threads.subrange(0, m));
    assert(pre.last() == threads[m]);
    if m > 0 {
        lemma_cursor_prefix_other(cursors, threads, m - 1, key);
    } else {
        assert(threads.subrange(0, 0) =~= Seq::<ThreadTaskTimings<T>>::empty());
    }
}

proof fn lemma_cursor_in_prefix<T>(start: Map<u64, u64>, all: Seq<ThreadTaskTimings<T>>, i: int)
    requires
        0 <= i < all.len(),
    ensures
        all.subrange(0, i + 1).drop_last() == all.subrange(0, i),
{
    assert(all.subrange(0, i + 1).drop_last() =~= all.subrange(0, i));
}

} // verus!
