use storage_readiness::establisher::AttemptOutcome;
use storage_readiness::establisher::ConnectAction;
use storage_readiness::establisher::ConnectionEstablisher;
use storage_readiness::establisher::ErrorDetail;

fn transient(msg: &str) -> ErrorDetail {
    ErrorDetail::Other { message: String::from(msg) }
}

#[test]
fn success_on_first_attempt_connects_immediately() {
    let mut e = ConnectionEstablisher::new();
    let a = e.record_outcome(None);
    assert_eq!(a, ConnectAction::Connected);
    assert!(e.succeeded);
    assert_eq!(e.attempts_made, 1);
    let log = e.attempt_log();
    assert_eq!(log.len(), 1);
    assert_eq!(log[0].attempt_number, 1);
    assert_eq!(log[0].outcome, AttemptOutcome::Success);
    assert_eq!(log[0].error_detail, None);
}

#[test]
fn transient_failure_is_retried_with_backoff() {
    let mut e = ConnectionEstablisher::new();
    let a = e.record_outcome(Some(transient("disk I/O error")));
    assert_eq!(a, ConnectAction::Retry { delay_ms: 100 });
    let b = e.record_outcome(None);
    assert_eq!(b, ConnectAction::Connected);
    assert_eq!(e.attempts_made, 2);
    let log = e.attempt_log();
    assert_eq!(log.len(), 2);
    assert_eq!(log[0].outcome, AttemptOutcome::TransientFailure);
    assert_eq!(log[1].outcome, AttemptOutcome::Success);
}

#[test]
fn backoff_delays_strictly_increase() {
    let mut e = ConnectionEstablisher::new();
    let first = e.record_outcome(Some(transient("locked")));
    let second = e.record_outcome(Some(transient("locked")));
    assert_eq!(first, ConnectAction::Retry { delay_ms: 100 });
    assert_eq!(second, ConnectAction::Retry { delay_ms: 200 });
}

#[test]
fn exhausting_all_attempts_is_fatal_with_full_log() {
    let mut e = ConnectionEstablisher::new();
    assert_eq!(
        e.record_outcome(Some(transient("first failure"))),
        ConnectAction::Retry { delay_ms: 100 }
    );
    assert_eq!(
        e.record_outcome(Some(transient("second failure"))),
        ConnectAction::Retry { delay_ms: 200 }
    );
    let last = ErrorDetail::Database {
        code: Some(String::from("SQLITE_CANTOPEN")),
        message: String::from("unable to open database file"),
    };
    let a = e.record_outcome(Some(last.clone()));
    match a {
        ConnectAction::Fatal { message } => {
            assert_eq!(
                message,
                "all connection attempts failed: database error [SQLITE_CANTOPEN]: \
                 unable to open database file"
            );
        }
        other => panic!("expected a fatal action, got {:?}", other),
    }
    assert!(e.exhausted);
    assert_eq!(e.attempts_made, 3);
    let log = e.attempt_log();
    assert_eq!(log.len(), 3);
    assert_eq!(log[0].error_detail, Some(transient("first failure")));
    assert_eq!(log[1].error_detail, Some(transient("second failure")));
    assert_eq!(log[2].error_detail, Some(last));
    assert_eq!(log[2].outcome, AttemptOutcome::FatalFailure);
}

#[test]
fn error_details_render_structured_messages() {
    let with_code = ErrorDetail::Database {
        code: Some(String::from("SQLITE_BUSY")),
        message: String::from("database is locked"),
    };
    assert_eq!(with_code.describe(), "database error [SQLITE_BUSY]: database is locked");

    let without_code = ErrorDetail::Database {
        code: None,
        message: String::from("database is locked"),
    };
    assert_eq!(without_code.describe(), "database error: database is locked");

    let other = ErrorDetail::Other { message: String::from("connection refused") };
    assert_eq!(other.describe(), "error: connection refused");
}
