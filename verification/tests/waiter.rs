use storage_readiness::waiter::FileStatus;
use storage_readiness::waiter::ReadinessWaiter;
use storage_readiness::waiter::WaitAction;
use storage_readiness::waiter::WaiterPhase;

fn present() -> FileStatus {
    FileStatus { exists: true, size_bytes: Some(4096), readonly: Some(false) }
}

fn absent() -> FileStatus {
    FileStatus { exists: false, size_bytes: None, readonly: None }
}

#[test]
fn first_wait_is_unconditional_even_when_file_exists() {
    let mut w = ReadinessWaiter::new();
    let a = w.observe(&present());
    assert_eq!(a, WaitAction::Wait { duration_ms: 1000 });
    assert_eq!(w.windows_waited, 1);

    let a2 = w.observe(&present());
    assert_eq!(a2, WaitAction::Proceed);
    assert_eq!(w.phase, WaiterPhase::Ready);
    assert_eq!(w.windows_waited, 1);
}

#[test]
fn absent_file_aborts_after_exactly_two_windows() {
    let mut w = ReadinessWaiter::new();
    assert_eq!(w.observe(&absent()), WaitAction::Wait { duration_ms: 1000 });
    assert_eq!(w.observe(&absent()), WaitAction::Wait { duration_ms: 2000 });
    assert_eq!(w.observe(&absent()), WaitAction::Abort);
    assert_eq!(w.phase, WaiterPhase::TimedOut);
    assert_eq!(w.windows_waited, 2);
}

#[test]
fn second_window_is_longer_than_first() {
    let mut w = ReadinessWaiter::new();
    let first = w.observe(&absent());
    let second = w.observe(&absent());
    match (first, second) {
        (WaitAction::Wait { duration_ms: d1 }, WaitAction::Wait { duration_ms: d2 }) => {
            assert!(d1 < d2);
        }
        other => panic!("expected two waits, got {:?}", other),
    }
}

#[test]
fn file_appearing_after_second_window_still_proceeds() {
    let mut w = ReadinessWaiter::new();
    assert_eq!(w.observe(&absent()), WaitAction::Wait { duration_ms: 1000 });
    assert_eq!(w.observe(&absent()), WaitAction::Wait { duration_ms: 2000 });
    assert_eq!(w.observe(&present()), WaitAction::Proceed);
    assert_eq!(w.phase, WaiterPhase::Ready);
}
