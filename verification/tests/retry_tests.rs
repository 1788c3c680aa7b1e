use ani_scheduler::retry::run_firing;
use ani_scheduler::retry::AttemptDirective;
use ani_scheduler::retry::FiringPhase;
use ani_scheduler::retry::FiringState;
use ani_scheduler::retry::RETRY_BACKOFF_MILLIS;

#[test]
fn failing_firing_uses_the_whole_budget() {
    // retry budget 2: exactly 3 attempts, no success.
    let outcomes = vec![false, false, false];
    let (attempts, succeeded) = run_firing(2, &outcomes);
    assert_eq!(attempts, 3);
    assert!(!succeeded);
}

#[test]
fn zero_budget_failing_firing_attempts_once() {
    let outcomes = vec![false];
    let (attempts, succeeded) = run_firing(0, &outcomes);
    assert_eq!(attempts, 1);
    assert!(!succeeded);
}

#[test]
fn first_success_stops_retrying_immediately() {
    let outcomes = vec![true, false, false];
    let (attempts, succeeded) = run_firing(2, &outcomes);
    assert_eq!(attempts, 1);
    assert!(succeeded);
}

#[test]
fn success_mid_budget_counts_exact_attempts() {
    let outcomes = vec![false, true, false];
    let (attempts, succeeded) = run_firing(2, &outcomes);
    assert_eq!(attempts, 2);
    assert!(succeeded);
}

#[test]
fn success_on_the_last_allowed_attempt_still_emits() {
    let outcomes = vec![false, false, true];
    let (attempts, succeeded) = run_firing(2, &outcomes);
    assert_eq!(attempts, 3);
    assert!(succeeded);
}

#[test]
fn every_failed_attempt_with_budget_left_backs_off_five_seconds() {
    let mut st = FiringState::start(2);
    let d1 = st.record_outcome(false);
    assert_eq!(d1, AttemptDirective::Backoff { wait_millis: RETRY_BACKOFF_MILLIS });
    assert_eq!(RETRY_BACKOFF_MILLIS, 5000);
    let d2 = st.record_outcome(false);
    assert_eq!(d2, AttemptDirective::Backoff { wait_millis: 5000 });
    let d3 = st.record_outcome(false);
    assert_eq!(d3, AttemptDirective::GiveUp);
    assert_eq!(st.phase, FiringPhase::Exhausted);
    assert_eq!(st.attempts, 3);
}

#[test]
fn success_emits_exactly_once() {
    let mut st = FiringState::start(3);
    assert_eq!(st.record_outcome(false), AttemptDirective::Backoff { wait_millis: 5000 });
    assert_eq!(st.record_outcome(true), AttemptDirective::EmitSuccess);
    assert_eq!(st.phase, FiringPhase::Succeeded);
    assert_eq!(st.attempts, 2);
}
