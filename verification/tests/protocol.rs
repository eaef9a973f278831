use storage_readiness::establisher::AttemptOutcome;
use storage_readiness::establisher::ErrorDetail;
use storage_readiness::locator::resolve_storage_path;
use storage_readiness::protocol::FailureKind;
use storage_readiness::protocol::ProtocolAction;
use storage_readiness::protocol::ReadinessProtocol;
use storage_readiness::reporter::HandleRegistry;
use storage_readiness::waiter::FileStatus;

fn present() -> FileStatus {
    FileStatus { exists: true, size_bytes: Some(1024), readonly: Some(false) }
}

fn absent() -> FileStatus {
    FileStatus { exists: false, size_bytes: None, readonly: None }
}

fn transient(msg: &str) -> ErrorDetail {
    ErrorDetail::Other { message: String::from(msg) }
}

#[test]
fn missing_everything_aborts_naming_the_emergency_path() {
    let storage = resolve_storage_path(None, None, false);
    let mut p = ReadinessProtocol::<i32>::new(storage);
    assert_eq!(p.poll_step(&absent()), ProtocolAction::Wait { duration_ms: 1000 });
    assert_eq!(p.poll_step(&absent()), ProtocolAction::Wait { duration_ms: 2000 });
    match p.poll_step(&absent()) {
        ProtocolAction::Abort { kind, message } => {
            assert_eq!(kind, FailureKind::FileNotReadyTimeout);
            assert!(message.contains("./data/alduin.db"), "message was: {}", message);
        }
        other => panic!("expected an abort, got {:?}", other),
    }
    assert_eq!(p.handle(), None);
}

#[test]
fn transient_failure_then_success_publishes_after_two_attempts() {
    let storage = resolve_storage_path(Some(String::from("/cfg/app")), None, true);
    let mut p = ReadinessProtocol::<i32>::new(storage);

    assert_eq!(p.poll_step(&present()), ProtocolAction::Wait { duration_ms: 1000 });
    assert_eq!(p.poll_step(&present()), ProtocolAction::Connect);
    assert_eq!(p.handle(), None);

    let a = p.connect_step(Err(transient("database is locked")));
    assert_eq!(a, ProtocolAction::RetryConnect { delay_ms: 100 });
    assert_eq!(p.handle(), None);

    let b = p.connect_step(Ok(42));
    assert_eq!(b, ProtocolAction::Published);
    assert_eq!(p.handle(), Some(&42));

    let log = p.attempt_log();
    assert_eq!(log.len(), 2);
    assert_eq!(log[0].outcome, AttemptOutcome::TransientFailure);
    assert_eq!(log[1].outcome, AttemptOutcome::Success);
}

#[test]
fn exhausting_all_attempts_aborts_with_every_error_logged() {
    let storage = resolve_storage_path(Some(String::from("/cfg/app")), None, true);
    let mut p = ReadinessProtocol::<i32>::new(storage);
    p.poll_step(&present());
    assert_eq!(p.poll_step(&present()), ProtocolAction::Connect);

    assert_eq!(
        p.connect_step(Err(transient("attempt one failed"))),
        ProtocolAction::RetryConnect { delay_ms: 100 }
    );
    assert_eq!(
        p.connect_step(Err(transient("attempt two failed"))),
        ProtocolAction::RetryConnect { delay_ms: 200 }
    );
    match p.connect_step(Err(transient("attempt three failed"))) {
        ProtocolAction::Abort { kind, message } => {
            assert_eq!(kind, FailureKind::ConnectionExhausted);
            assert!(message.contains("attempt three failed"), "message was: {}", message);
        }
        other => panic!("expected an abort, got {:?}", other),
    }

    let log = p.attempt_log();
    assert_eq!(log.len(), 3);
    assert_eq!(log[0].error_detail, Some(transient("attempt one failed")));
    assert_eq!(log[1].error_detail, Some(transient("attempt two failed")));
    assert_eq!(log[2].error_detail, Some(transient("attempt three failed")));
    assert_eq!(p.handle(), None);
}

#[test]
fn handle_is_never_observable_before_success() {
    let storage = resolve_storage_path(None, Some(String::from("/home/user")), false);
    let mut p = ReadinessProtocol::<i32>::new(storage);
    assert_eq!(p.handle(), None);
    p.poll_step(&present());
    assert_eq!(p.handle(), None);
    p.poll_step(&present());
    assert_eq!(p.handle(), None);
    p.connect_step(Err(transient("not yet")));
    assert_eq!(p.handle(), None);
    p.connect_step(Ok(7));
    assert_eq!(p.handle(), Some(&7));
}

#[test]
fn registry_is_empty_until_published() {
    let mut r: HandleRegistry<i32> = HandleRegistry::new();
    assert_eq!(r.try_get(), None);
    r.publish(5);
    assert_eq!(r.try_get(), Some(&5));
}
