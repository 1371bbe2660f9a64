use tollbooth::retry::{after_failure, exhausted_message, is_transient, RetryDecision, RetryRun};

#[test]
fn transient_errors_back_off_exponentially() {
    assert!(is_transient("HTTP status 503 Service Unavailable"));
    assert!(is_transient("request timeout"));
    assert!(!is_transient("invalid params"));
    assert_eq!(after_failure(200, 0, "429 Too Many Requests"), RetryDecision::Wait(200));
    assert_eq!(after_failure(200, 2, "429 Too Many Requests"), RetryDecision::Wait(800));
    assert_eq!(after_failure(200, 1, "bad"), RetryDecision::Fail("bad".into()));
    assert_eq!(exhausted_message(3, "timeout"), "failed after 3 attempts: timeout");
}

#[test]
fn retry_run_exhausts_after_transient_failures() {
    let mut run = RetryRun::new(2, 100);
    assert_eq!(run.finished(), None);
    assert_eq!(run.record_failure("HTTP 503"), RetryDecision::Wait(100));
    assert_eq!(run.finished(), None);
    assert_eq!(run.record_failure("request timeout"), RetryDecision::Wait(200));
    assert_eq!(run.finished(), Some("failed after 2 attempts: request timeout".to_string()));
}

#[test]
fn retry_run_stops_at_a_lasting_error() {
    let mut run = RetryRun::new(3, 100);
    assert_eq!(run.record_failure("429 Too Many Requests"), RetryDecision::Wait(100));
    assert_eq!(run.record_failure("invalid account"), RetryDecision::Fail("invalid account".into()));
    assert_eq!(run.attempt, 1);
    assert_eq!(run.last_err, "429 Too Many Requests");
}

#[test]
fn retry_run_with_no_attempts() {
    let run = RetryRun::new(0, 100);
    assert_eq!(run.finished(), Some("failed after 0 attempts: ".to_string()));
}
