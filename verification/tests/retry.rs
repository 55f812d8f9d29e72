use model_client_rs::error::ModelError;
use model_client_rs::providers::error_for_status;
use model_client_rs::retry::{classify_error, retry_delay_ms, RetryController, RetryDecision, RetryPolicy};

fn policy(max_attempts: u32) -> RetryPolicy {
    RetryPolicy { max_attempts, base_delay_ms: 500, max_delay_ms: 30_000 }
}

/// Runs the controller over a script of HTTP statuses, one per attempt,
/// the way the transport shell drives it.
fn run_script(policy: RetryPolicy, statuses: &[u16]) -> Result<u16, ModelError> {
    let mut ctl = RetryController::new(policy);
    for status in statuses {
        match error_for_status(*status, String::new()) {
            None => return Ok(*status),
            Some(e) => match ctl.on_error(e, 0) {
                RetryDecision::Retry(_) => continue,
                RetryDecision::GiveUp(e) => return Err(e),
            },
        }
    }
    panic!("script exhausted without a decision");
}

#[test]
fn recovers_within_budget() {
    // 429/500/500/200 with four attempts allowed: the success comes back
    assert_eq!(run_script(policy(4), &[429, 500, 500, 200]), Ok(200));
    assert_eq!(run_script(policy(5), &[429, 500, 500, 200]), Ok(200));
}

#[test]
fn exhausting_budget_reports_retry_limit() {
    match run_script(policy(3), &[500, 500, 500, 500]) {
        Err(ModelError::RetryLimit(attempts, last_status)) => {
            assert_eq!(attempts, 3);
            assert_eq!(last_status, 500);
        },
        other => panic!("expected RetryLimit, got {:?}", other),
    }
}

#[test]
fn unauthorized_fails_immediately_with_one_attempt() {
    let mut ctl = RetryController::new(policy(5));
    let e = error_for_status(401, "bad key".to_string()).unwrap();
    match ctl.on_error(e, 0) {
        RetryDecision::GiveUp(ModelError::Authentication(body)) => assert_eq!(body, "bad key"),
        other => panic!("expected Authentication, got {:?}", other),
    }
    assert_eq!(ctl.attempts, 1);
}

#[test]
fn classification_by_status() {
    let body = || "b".to_string();
    assert!(matches!(
        classify_error(ModelError::UnexpectedStatus(401, body())),
        ModelError::Authentication(_)
    ));
    assert!(matches!(
        classify_error(ModelError::UnexpectedStatus(403, body())),
        ModelError::Authentication(_)
    ));
    assert!(matches!(
        classify_error(ModelError::UnexpectedStatus(400, body())),
        ModelError::InvalidRequest(_)
    ));
    assert!(matches!(
        classify_error(ModelError::UnexpectedStatus(404, body())),
        ModelError::ModelNotFound(_)
    ));
    assert!(matches!(
        classify_error(ModelError::UnexpectedStatus(429, body())),
        ModelError::RateLimit(_)
    ));
    assert!(matches!(
        classify_error(ModelError::UnexpectedStatus(500, body())),
        ModelError::UnexpectedStatus(500, _)
    ));
    assert!(matches!(
        classify_error(ModelError::Timeout(5)),
        ModelError::Timeout(5)
    ));
}

#[test]
fn non_retryable_passes_through_unchanged() {
    let mut ctl = RetryController::new(policy(5));
    let e = ModelError::InvalidRequest("malformed body".to_string());
    match ctl.on_error(e, 0) {
        RetryDecision::GiveUp(ModelError::InvalidRequest(m)) => assert_eq!(m, "malformed body"),
        other => panic!("expected InvalidRequest, got {:?}", other),
    }
}

#[test]
fn timeouts_are_retried() {
    let mut ctl = RetryController::new(policy(3));
    assert!(matches!(ctl.on_error(ModelError::Timeout(10_000), 0), RetryDecision::Retry(_)));
    assert!(matches!(ctl.on_error(ModelError::Timeout(10_000), 0), RetryDecision::Retry(_)));
    // the budget is spent; no status was ever observed
    match ctl.on_error(ModelError::Timeout(10_000), 0) {
        RetryDecision::GiveUp(ModelError::RetryLimit(3, 0)) => {},
        other => panic!("expected RetryLimit, got {:?}", other),
    }
}

#[test]
fn backoff_grows_exponentially_and_clamps() {
    let p = policy(10);
    assert_eq!(retry_delay_ms(&p, 1, 0), 500);
    assert_eq!(retry_delay_ms(&p, 2, 0), 1_000);
    assert_eq!(retry_delay_ms(&p, 3, 0), 2_000);
    assert_eq!(retry_delay_ms(&p, 4, 0), 4_000);
    assert_eq!(retry_delay_ms(&p, 10, 0), 30_000);
    assert_eq!(retry_delay_ms(&p, 63, 0), 30_000);
}

#[test]
fn jitter_is_added_under_the_cap() {
    let p = policy(10);
    assert_eq!(retry_delay_ms(&p, 1, 137), 637);
    assert_eq!(retry_delay_ms(&p, 1, u64::MAX), 30_000);
    assert_eq!(retry_delay_ms(&p, 10, 1), 30_000);
}

#[test]
fn default_policy_is_small() {
    let p = RetryPolicy::default();
    assert_eq!(p.max_attempts, 3);
    assert_eq!(p.base_delay_ms, 500);
    assert_eq!(p.max_delay_ms, 30_000);
}
