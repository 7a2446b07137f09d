use proc_macro_examples::retry::{flaky_verdict, next_action, FlakyRun, RetryAction, FLAKY_ATTEMPTS};

#[test]
fn three_attempts() {
    assert_eq!(FLAKY_ATTEMPTS, 3);
}

#[test]
fn next_action_cases() {
    assert_eq!(next_action(0, true), RetryAction::Passed);
    assert_eq!(next_action(2, true), RetryAction::Passed);
    assert_eq!(next_action(0, false), RetryAction::Retry);
    assert_eq!(next_action(1, false), RetryAction::Retry);
    assert_eq!(next_action(2, false), RetryAction::Failed);
}

#[test]
fn flaky_run_records_attempts() {
    let mut run = FlakyRun::new();
    assert_eq!(run.next_attempt(), 0);
    assert_eq!(run.record(false), RetryAction::Retry);
    assert_eq!(run.next_attempt(), 1);
    assert!(!run.is_finished());
    assert_eq!(run.record(true), RetryAction::Passed);
    assert!(run.is_finished());
    assert_eq!(run.next_attempt(), 2);
}

#[test]
fn verdict_first_pass() {
    assert_eq!(flaky_verdict(&[true, false, false]), (RetryAction::Passed, 1));
}

#[test]
fn verdict_pass_on_second_attempt() {
    assert_eq!(flaky_verdict(&[false, true, false]), (RetryAction::Passed, 2));
}

#[test]
fn verdict_pass_on_last_attempt() {
    assert_eq!(flaky_verdict(&[false, false, true]), (RetryAction::Passed, 3));
}

#[test]
fn verdict_fails_only_when_all_attempts_fail() {
    assert_eq!(flaky_verdict(&[false, false, false]), (RetryAction::Failed, 3));
    assert_eq!(flaky_verdict(&[false, false, false, true]), (RetryAction::Failed, 3));
}
