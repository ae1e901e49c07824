use adabraka_gpui::profiler::{
    is_enabled, record_end_accepted, record_start, set_enabled, ProfilerSwitch,
    ProfilingCollector, TaskTimingStatus, ThreadTaskTimings, ThreadTimingState,
};
use adabraka_gpui::profiler::TaskTimer;

#[derive(Clone, Copy, Debug, PartialEq)]
struct TaskTiming {
    location: &'static str,
    start: u64,
    end: u64,
    status: TaskTimingStatus,
}

const MAX_TASK_TIMINGS: usize = (16 * 1024 * 1024) / std::mem::size_of::<TaskTiming>();

fn current_location() -> &'static str {
    "tests/profiler.rs"
}

fn completed(start: u64, end: u64) -> TaskTiming {
    TaskTiming { location: current_location(), start, end, status: TaskTimingStatus::Completed }
}

#[test]
fn task_timing_records_start_and_end() {
    let mut switch = ProfilerSwitch::new();
    set_enabled(&mut switch, &mut no_threads(), true);
    let mut state = ThreadTimingState::new(None, 1, MAX_TASK_TIMINGS);

    let handle = record_start(&switch, current_location(), 5u64).unwrap();
    if record_end_accepted(&switch, &handle) {
        state.push(TaskTiming {
            location: handle.location,
            start: handle.start,
            end: 9,
            status: TaskTimingStatus::Completed,
        });
    }

    let snapshot = state.snapshot();
    let timing = snapshot.timings.first().unwrap();
    assert!(timing.end >= timing.start);
    assert_eq!(timing.status, TaskTimingStatus::Completed);
}

#[test]
fn profiling_disabled_records_nothing() {
    let switch = ProfilerSwitch::new();
    let state: ThreadTimingState<TaskTiming> = ThreadTimingState::new(None, 1, MAX_TASK_TIMINGS);

    assert!(record_start(&switch, current_location(), 0u64).is_none());
    assert!(state.snapshot().timings.is_empty());
}

#[test]
fn thread_task_timings_append_and_retrieve() {
    let mut timings = ThreadTimingState::new(Some("main".to_string()), 7, MAX_TASK_TIMINGS);
    timings.push(completed(1, 2));
    let snapshot = timings.snapshot();
    assert_eq!(snapshot.timings.len(), 1);
    assert_eq!(snapshot.total_pushed, 1);
    assert_eq!(snapshot.thread_key, 7);
    assert_eq!(snapshot.thread_name.as_deref(), Some("main"));
}

#[test]
fn ring_buffer_wraps_without_panic() {
    let mut state = ThreadTimingState::new(None, 1, MAX_TASK_TIMINGS);
    for _ in 0..(MAX_TASK_TIMINGS + 2) {
        state.push(completed(3, 3));
    }

    let snapshot = state.snapshot();
    assert_eq!(snapshot.timings.len(), MAX_TASK_TIMINGS);
    assert_eq!(snapshot.total_pushed, (MAX_TASK_TIMINGS + 2) as u64);
}

#[test]
fn ring_buffer_keeps_the_most_recent_timings() {
    let mut state = ThreadTimingState::new(None, 1, 3);
    for start in 0..5u64 {
        state.push(completed(start, start));
    }
    let starts: Vec<u64> = state.snapshot().timings.iter().map(|t| t.start).collect();
    assert_eq!(starts, vec![2, 3, 4]);
    state.clear();
    let snapshot = state.snapshot();
    assert!(snapshot.timings.is_empty());
    assert_eq!(snapshot.total_pushed, 0);
}

#[test]
fn collector_returns_only_unseen_delta() {
    let mut switch = ProfilerSwitch::new();
    set_enabled(&mut switch, &mut no_threads(), true);
    let mut state = ThreadTimingState::new(None, 1, MAX_TASK_TIMINGS);

    let mut collector = ProfilingCollector::new(0u64);
    let handle = record_start(&switch, current_location(), 1u64).unwrap();
    assert!(record_end_accepted(&switch, &handle));
    state.push(completed(handle.start, 2));
    assert_eq!(collector.collect_unseen(vec![state.snapshot()]).len(), 1);
    assert!(collector.collect_unseen(vec![state.snapshot()]).is_empty());

    let handle = record_start(&switch, current_location(), 3u64).unwrap();
    assert!(record_end_accepted(&switch, &handle));
    state.push(completed(handle.start, 4));
    let deltas = collector.collect_unseen(vec![state.snapshot()]);
    assert_eq!(deltas.len(), 1);
    assert_eq!(deltas[0].new_timings.len(), 1);
    assert_eq!(deltas[0].new_timings[0].start, 3);
}

#[test]
fn collector_after_wrap_returns_remaining_data() {
    let thread_key = 1;
    let timings = (0..3).map(|_| completed(0, 0)).collect();
    let all_timings = vec![ThreadTaskTimings {
        thread_name: None,
        thread_key,
        timings,
        total_pushed: 10,
    }];

    let mut collector = ProfilingCollector::new(0u64);
    collector.set_cursor(thread_key, 1);
    let deltas = collector.collect_unseen(all_timings);
    assert_eq!(deltas[0].new_timings.len(), 3);
}

#[test]
fn collector_skips_the_part_of_the_buffer_already_seen() {
    let timings: Vec<TaskTiming> = (5..10).map(|s| completed(s, s)).collect();
    let mut collector = ProfilingCollector::new(0u64);
    collector.set_cursor(4, 8);
    let deltas = collector.collect_unseen(vec![ThreadTaskTimings {
        thread_name: Some("worker".to_string()),
        thread_key: 4,
        timings,
        total_pushed: 10,
    }]);
    assert_eq!(deltas.len(), 1);
    assert_eq!(deltas[0].thread_key, 4);
    let starts: Vec<u64> = deltas[0].new_timings.iter().map(|t| t.start).collect();
    assert_eq!(starts, vec![8, 9]);
    collector.reset();
    assert_eq!(collector.startup_time(), 0);
}

#[test]
fn switching_the_profiler_starts_a_new_generation() {
    let mut switch = ProfilerSwitch::new();
    assert!(!is_enabled(&switch));
    assert!(set_enabled(&mut switch, &mut no_threads(), true));
    assert!(!set_enabled(&mut switch, &mut no_threads(), true));
    assert_eq!(switch.generation, 1);
    let handle = record_start(&switch, current_location(), 0u64).unwrap();
    assert!(set_enabled(&mut switch, &mut no_threads(), false));
    assert!(set_enabled(&mut switch, &mut no_threads(), true));
    assert_eq!(switch.generation, 3);
    assert!(!record_end_accepted(&switch, &handle));

    let mut wrapping = ProfilerSwitch { enabled: false, generation: u64::MAX };
    assert!(set_enabled(&mut wrapping, &mut no_threads(), true));
    assert_eq!(wrapping.generation, 0);
}

#[test]
fn task_timing_starts_at_first_poll_and_ends_once() {
    let mut switch = ProfilerSwitch::new();
    set_enabled(&mut switch, &mut no_threads(), true);

    let mut timer: TaskTimer<&'static str, u64> = TaskTimer::new();
    timer.before_poll(&switch, current_location(), 10);
    assert_eq!(timer.after_poll(false), None);
    timer.before_poll(&switch, current_location(), 20);
    let handle = timer.after_poll(true).unwrap();
    assert_eq!(handle.start, 10);
    assert_eq!(timer.on_drop(), None);

    let mut dropped: TaskTimer<&'static str, u64> = TaskTimer::new();
    dropped.before_poll(&switch, current_location(), 30);
    assert_eq!(dropped.on_drop().map(|h| h.start), Some(30));

    let off = ProfilerSwitch::new();
    let mut silent: TaskTimer<&'static str, u64> = TaskTimer::new();
    silent.before_poll(&off, current_location(), 40);
    assert_eq!(silent.after_poll(true), None);
}

#[test]
fn turning_recording_off_clears_every_thread() {
    let timing = TaskTiming { location: "a", start: 1, end: 2, status: TaskTimingStatus::Completed };
    let mut threads = vec![ThreadTimingState::new(Some("main".to_string()), 1, 4), ThreadTimingState::new(None, 2, 4)];
    threads[0].push(timing);
    threads[1].push(timing);
    threads[1].push(timing);
    let mut switch = ProfilerSwitch::new();

    assert!(set_enabled(&mut switch, &mut threads, true));
    assert_eq!(threads[1].total_pushed(), 2);
    assert!(!set_enabled(&mut switch, &mut threads, true));
    assert_eq!(threads[0].total_pushed(), 1);

    assert!(set_enabled(&mut switch, &mut threads, false));
    assert!(!is_enabled(&switch));
    assert_eq!(switch.generation, 2);
    for state in &threads {
        assert_eq!(state.total_pushed(), 0);
        assert!(state.snapshot().timings.is_empty());
    }
    assert_eq!(threads[0].thread_key(), 1);
    assert_eq!(threads[0].snapshot().thread_name, Some("main".to_string()));
}

fn no_threads() -> Vec<ThreadTimingState<TaskTiming>> {
    Vec::new()
}
