use cygnus::common::components::{InfiniteGuard, RepeatDecision, RetryDecision, RetryGuard};
use cygnus::component::control_flow::{Infinite, Parallel};

#[test]
fn retry_guard_runs_a_failing_step_exactly_three_times() {
    // max_retries = Some(2), delay = 0: one initial attempt plus two retries
    let mut guard = RetryGuard::new(Some(2), 0, ());
    let mut attempts: u32 = 0;
    loop {
        attempts += 1;  // the step runs and always fails
        match guard.on_failure() {
            RetryDecision::GiveUp => break,
            RetryDecision::RetryAfterDelay(delay) => assert_eq!(delay, 0),
        }
    }
    assert_eq!(attempts, 3);
}

#[test]
fn retry_guard_without_bound_never_gives_up() {
    let mut guard = RetryGuard::new(None, 7, ());
    for _ in 0..1000 {
        assert_eq!(guard.on_failure(), RetryDecision::RetryAfterDelay(7));
    }
}

#[test]
fn retry_guard_starts_with_a_zero_counter() {
    let guard = RetryGuard::new(Some(3), 1, ());
    assert_eq!(guard.retries, 0);
    assert_eq!(guard.max_retries, Some(3));
}

#[test]
fn infinite_guard_repeats_on_success_and_stops_on_failure() {
    let guard = InfiniteGuard::new(20, ());
    assert_eq!(guard.after_round(true), RepeatDecision::SleepThenRepeat(20));
    assert_eq!(guard.after_round(false), RepeatDecision::Stop);
}

#[test]
fn infinite_repeats_with_its_delay() {
    let component = Infinite::new((), 1);
    assert_eq!(component.delay, 1);
    assert_eq!(
        component.after_round(true),
        RepeatDecision::SleepThenRepeat(1)
    );
}

#[test]
fn parallel_holds_both_components() {
    let component = Parallel::new(1u8, 2u8);
    assert_eq!(component.a, 1);
    assert_eq!(component.b, 2);
}
