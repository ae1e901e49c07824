use adabraka_gpui::dispatcher::{
    idle_step, until_step, worker_count, BackgroundQueueState, IdleStep, IdleTracker,
    TaskPriority, TimerQueueState, UntilStep, MAX_THREADS, MIN_THREADS,
};
use adabraka_gpui::dispatcher::{block_deadline, block_gives_up, block_step, BlockStep};

#[test]
fn idle_does_not_wait_for_future_timers() {
    let now: u64 = 1_000;
    let mut timers = TimerQueueState::new();
    timers.push(now + 60_000, "sixty seconds later");
    let idle = IdleTracker { inflight: 0 };

    let step = idle_step(0, timers.next_deadline(), now, idle.inflight);
    assert_eq!(step, IdleStep::Idle);
    assert_eq!(timers.cancel_all(), 1);
    assert_eq!(idle_step(0, timers.next_deadline(), now, idle.inflight), IdleStep::Idle);
}

#[test]
fn idle_waits_for_main_work_due_timers_and_inflight_work() {
    assert_eq!(idle_step(2, None, 0, 0), IdleStep::RunMainTask);
    assert_eq!(idle_step(0, Some(5), 5, 0), IdleStep::AwaitDueTimer);
    assert_eq!(idle_step(0, Some(6), 5, 3), IdleStep::AwaitWork);
    assert_eq!(idle_step(0, None, 5, 0), IdleStep::Idle);
}

#[test]
fn run_until_waits_for_future_timers() {
    assert_eq!(until_step(true, 4, Some(1)), UntilStep::Done);
    assert_eq!(until_step(false, 4, Some(1)), UntilStep::RunMainTask);
    assert_eq!(until_step(false, 0, Some(60)), UntilStep::AwaitUntil(60));
    assert_eq!(until_step(false, 0, None), UntilStep::Await);
}

#[test]
fn background_work_runs_by_priority_then_in_order() {
    let mut queue = BackgroundQueueState::new();
    queue.push(TaskPriority::Low, "low");
    queue.push(TaskPriority::Medium, "normal 1");
    queue.push(TaskPriority::High, "high");
    queue.push(TaskPriority::Medium, "normal 2");
    assert_eq!(queue.pop(), Some("high"));
    assert_eq!(queue.pop(), Some("normal 1"));
    assert_eq!(queue.pop(), Some("normal 2"));
    assert_eq!(queue.pop(), Some("low"));
    assert_eq!(queue.pop(), None);
}

#[test]
fn timers_fire_by_due_time_then_scheduling_order() {
    let mut timers = TimerQueueState::new();
    timers.push(30, "c");
    timers.push(10, "a");
    timers.push(10, "b");
    assert_eq!(timers.next_deadline(), Some(10));
    assert_eq!(timers.pop_due(5), None);
    assert_eq!(timers.pop_due(10), Some("a"));
    assert_eq!(timers.pop_due(10), Some("b"));
    assert_eq!(timers.pop_due(29), None);
    assert_eq!(timers.pop_due(100), Some("c"));
    assert_eq!(timers.next_deadline(), None);
}

#[test]
fn worker_count_is_clamped() {
    assert_eq!(worker_count(None), MIN_THREADS);
    assert_eq!(worker_count(Some(1)), MIN_THREADS);
    assert_eq!(worker_count(Some(4)), 4);
    assert_eq!(worker_count(Some(64)), MAX_THREADS);
}

#[test]
fn inflight_work_is_counted() {
    let mut idle = IdleTracker { inflight: 0 };
    assert!(idle.is_idle());
    idle.increment();
    idle.increment();
    idle.decrement();
    assert!(!idle.is_idle());
    idle.decrement();
    assert!(idle.is_idle());
}

#[test]
fn blocking_parks_until_the_deadline_then_gives_up() {
    assert_eq!(block_deadline(None, 100), None);
    assert_eq!(block_deadline(Some(50), 100), Some(150));
    assert_eq!(block_step(true, Some(150), 120), BlockStep::Finish);
    assert_eq!(block_step(false, Some(150), 120), BlockStep::Park(Some(30)));
    assert_eq!(block_step(false, Some(150), 160), BlockStep::Park(Some(0)));
    assert_eq!(block_step(false, None, 160), BlockStep::Park(None));
    assert!(!block_gives_up(true, Some(150), 160));
    assert!(block_gives_up(false, Some(150), 160));
    assert!(!block_gives_up(false, Some(150), 150));
    assert!(!block_gives_up(false, None, 160));
}

#[test]
fn debug_state_summarizes_outstanding_work() {
    assert_eq!(
        adabraka_gpui::dispatcher::debug_state(3, 0, 12),
        "ThreadedDispatcher { inflight: 3, main: 0, timers: 12 }"
    );
}
