use spider_client::retry::AttemptOutcome;
use spider_client::retry::RetryDecision;
use spider_client::retry::TransportError;
use spider_client::retry::backoff_delay_ms;
use spider_client::retry::is_retryable;
use spider_client::retry::retry_decision;
use spider_client::retry::run_retries;

fn server_error() -> TransportError {
    TransportError { status: Some(500), timeout: false }
}

fn client_error() -> TransportError {
    TransportError { status: Some(404), timeout: false }
}

fn timeout_error() -> TransportError {
    TransportError { status: None, timeout: true }
}

fn connect_error() -> TransportError {
    TransportError { status: None, timeout: false }
}

#[test]
fn retryable_classification() {
    assert!(is_retryable(&server_error()));
    assert!(is_retryable(&TransportError { status: Some(503), timeout: false }));
    assert!(is_retryable(&TransportError { status: Some(599), timeout: false }));
    assert!(is_retryable(&timeout_error()));
    assert!(!is_retryable(&client_error()));
    assert!(!is_retryable(&TransportError { status: Some(400), timeout: false }));
    assert!(!is_retryable(&connect_error()));
    // A status wins over the timeout flag: a 4xx that also timed out is
    // terminal.
    assert!(!is_retryable(&TransportError { status: Some(404), timeout: true }));
}

#[test]
fn single_attempt_on_client_error() {
    let outcomes = vec![
        AttemptOutcome::Failure(client_error()),
        AttemptOutcome::Success,
        AttemptOutcome::Success,
        AttemptOutcome::Success,
        AttemptOutcome::Success,
    ];
    let (attempts, last) = run_retries(&outcomes);
    assert_eq!(attempts, 1);
    assert_eq!(last, AttemptOutcome::Failure(client_error()));
}

#[test]
fn single_attempt_on_connect_failure() {
    let outcomes = vec![
        AttemptOutcome::Failure(connect_error()),
        AttemptOutcome::Success,
        AttemptOutcome::Success,
        AttemptOutcome::Success,
        AttemptOutcome::Success,
    ];
    let (attempts, last) = run_retries(&outcomes);
    assert_eq!(attempts, 1);
    assert_eq!(last, AttemptOutcome::Failure(connect_error()));
}

#[test]
fn five_attempts_on_repeated_server_errors() {
    let outcomes = vec![AttemptOutcome::Failure(server_error()); 5];
    let (attempts, last) = run_retries(&outcomes);
    assert_eq!(attempts, 5);
    assert_eq!(last, AttemptOutcome::Failure(server_error()));
}

#[test]
fn success_after_transient_failures() {
    let outcomes = vec![
        AttemptOutcome::Failure(server_error()),
        AttemptOutcome::Failure(timeout_error()),
        AttemptOutcome::Success,
        AttemptOutcome::Success,
        AttemptOutcome::Success,
    ];
    let (attempts, last) = run_retries(&outcomes);
    assert_eq!(attempts, 3);
    assert_eq!(last, AttemptOutcome::Success);
}

#[test]
fn backoff_is_exponential_and_non_decreasing() {
    assert_eq!(backoff_delay_ms(0), 1000);
    assert_eq!(backoff_delay_ms(1), 2000);
    assert_eq!(backoff_delay_ms(2), 4000);
    assert_eq!(backoff_delay_ms(3), 8000);
    assert_eq!(backoff_delay_ms(4), 16000);
    let mut prev = backoff_delay_ms(0);
    for a in 1..30u32 {
        let d = backoff_delay_ms(a);
        assert!(d >= prev);
        prev = d;
    }
}

#[test]
fn decision_sequence_for_server_errors() {
    let e = server_error();
    assert_eq!(retry_decision(1, &e), RetryDecision::Retry { delay_ms: 1000 });
    assert_eq!(retry_decision(2, &e), RetryDecision::Retry { delay_ms: 2000 });
    assert_eq!(retry_decision(3, &e), RetryDecision::Retry { delay_ms: 4000 });
    assert_eq!(retry_decision(4, &e), RetryDecision::Retry { delay_ms: 8000 });
    assert_eq!(retry_decision(5, &e), RetryDecision::GiveUp);
    assert_eq!(retry_decision(1, &client_error()), RetryDecision::GiveUp);
}
