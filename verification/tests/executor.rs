use adabraka_gpui::dispatcher::{block_deadline, block_gives_up, block_start, block_step, BlockStart, BlockStep};
use adabraka_gpui::profiler::{
    record_end_accepted, set_enabled, ProfilerSwitch, ProfilingCollector, TaskTimer,
    TaskTimingStatus, ThreadTimingState,
};

#[derive(Clone, Copy, Debug, PartialEq)]
struct TaskTiming {
    location: &'static str,
    start: u64,
    end: u64,
    status: TaskTimingStatus,
}

/// A task of a test executor: its timer, and how many polls it needs.
struct Task {
    timer: TaskTimer<&'static str, u64>,
    location: &'static str,
    polls_left: u32,
}

impl Task {
    fn spawn(location: &'static str, polls: u32) -> Self {
        Task { timer: TaskTimer::new(), location, polls_left: polls }
    }

    /// Polls the task once at `now`, recording its timing when it completes.
    fn poll(&mut self, switch: &ProfilerSwitch, now: u64, thread: &mut ThreadTimingState<TaskTiming>) -> bool {
        self.timer.before_poll(switch, self.location, now);
        self.polls_left = self.polls_left.saturating_sub(1);
        let ready = self.polls_left == 0;
        if let Some(handle) = self.timer.after_poll(ready) {
            if record_end_accepted(switch, &handle) {
                thread.push(TaskTiming {
                    location: handle.location,
                    start: handle.start,
                    end: now,
                    status: TaskTimingStatus::Completed,
                });
            }
        }
        ready
    }
}

fn collect(collector: &mut ProfilingCollector<u64>, thread: &ThreadTimingState<TaskTiming>) -> usize {
    collector.collect_unseen(vec![thread.snapshot()]).len()
}

#[test]
fn profiler_disabled_records_nothing() {
    let switch = ProfilerSwitch::new();
    let mut thread = ThreadTimingState::new(None, 1, 64);
    let mut collector = ProfilingCollector::new(0u64);
    let mut task = Task::spawn("src/executor.rs:10:5", 1);
    assert!(task.poll(&switch, 1, &mut thread));
    assert_eq!(collect(&mut collector, &thread), 0);
}

#[test]
fn profiler_enabled_records_background_task_timing() {
    let mut switch = ProfilerSwitch::new();
    set_enabled(&mut switch, &mut no_threads(), true);
    let mut thread = ThreadTimingState::new(Some("worker".to_string()), 2, 64);
    let mut collector = ProfilingCollector::new(0u64);
    let mut task = Task::spawn("src/executor.rs:20:9", 1);
    task.poll(&switch, 5, &mut thread);

    let deltas = collector.collect_unseen(vec![thread.snapshot()]);
    let timing = deltas
        .iter()
        .flat_map(|delta| &delta.new_timings)
        .next()
        .expect("expected a recorded background task timing");
    assert_eq!(timing.status, TaskTimingStatus::Completed);
}

#[test]
fn profiler_enabled_records_foreground_task_location() {
    let mut switch = ProfilerSwitch::new();
    set_enabled(&mut switch, &mut no_threads(), true);
    let mut thread = ThreadTimingState::new(Some("main".to_string()), 3, 64);
    let mut collector = ProfilingCollector::new(0u64);
    let mut task = Task::spawn("crates/gpui/src/executor.rs:42:17", 2);
    task.poll(&switch, 1, &mut thread);
    task.poll(&switch, 2, &mut thread);

    let deltas = collector.collect_unseen(vec![thread.snapshot()]);
    let timing = deltas
        .iter()
        .flat_map(|delta| &delta.new_timings)
        .find(|timing| timing.location.contains("executor.rs"))
        .expect("expected foreground task timing to include its source location");
    assert_eq!((timing.start, timing.end), (1, 2));
}

#[test]
fn profiler_timing_start_is_first_poll_not_spawn() {
    let mut switch = ProfilerSwitch::new();
    set_enabled(&mut switch, &mut no_threads(), true);
    let mut thread = ThreadTimingState::new(None, 4, 64);
    let mut collector = ProfilingCollector::new(0u64);

    let mut task = Task::spawn("src/executor.rs:30:1", 1);
    assert_eq!(collect(&mut collector, &thread), 0);

    task.poll(&switch, 7, &mut thread);
    assert_ne!(collect(&mut collector, &thread), 0);
    assert_eq!(thread.snapshot().timings[0].start, 7);
}

#[test]
fn baseline_block_with_timeout_returns_bounded_pending_future() {
    let now = 1_000u64;
    let deadline = block_deadline(Some(1), now);
    let pending = false;
    assert_eq!(block_step(pending, deadline, now), BlockStep::Park(Some(1)));
    let after_park = now + 2;
    assert!(block_gives_up(false, deadline, after_park));
}

#[test]
fn dropping_a_task_before_it_completes_ends_its_timing_as_cancelled() {
    let mut switch = ProfilerSwitch::new();
    set_enabled(&mut switch, &mut no_threads(), true);
    let mut thread = ThreadTimingState::new(None, 5, 64);
    let mut task = Task::spawn("src/executor.rs:50:1", 3);
    task.poll(&switch, 1, &mut thread);
    let handle = task.timer.on_drop().expect("a started task has a timing in progress");
    assert!(record_end_accepted(&switch, &handle));
    assert_eq!(handle.start, 1);
    assert!(task.timer.on_drop().is_none());
}

#[test]
fn a_zero_timeout_gives_the_future_back_before_polling() {
    assert_eq!(block_start(Some(0), 100), BlockStart::GiveBack);
    assert_eq!(block_start(Some(5), 100), BlockStart::Poll(Some(105)));
    assert_eq!(block_start(None, 100), BlockStart::Poll(None));
}

fn no_threads() -> Vec<ThreadTimingState<TaskTiming>> {
    Vec::new()
}
