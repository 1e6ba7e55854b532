use quiver::supervisor::{DriverOutcome, Retry, Supervisor, BASE_BACKOFF_MS, MAX_BACKOFF_MS};

#[test]
fn a_fresh_supervisor_holds_the_base_pause() {
    let s = Supervisor::new();
    assert_eq!(s.backoff_ms(), 100);
    assert_eq!(BASE_BACKOFF_MS, 100);
    assert_eq!(MAX_BACKOFF_MS, 30_000);
}

#[test]
fn failures_double_the_pause_up_to_the_ceiling() {
    let mut s = Supervisor::new();
    let expected = [100u64, 200, 400, 800, 1600, 3200, 6400, 12_800, 25_600, 30_000, 30_000, 30_000];
    for want in expected {
        let retry = s.on_outcome(DriverOutcome::Failed);
        assert_eq!(retry, Retry { abort_driver: false, delay_ms: want });
    }
    assert_eq!(s.backoff_ms(), 30_000);
}

#[test]
fn unreachable_server_then_success_resets_the_pause() {
    let mut s = Supervisor::new();
    assert_eq!(s.on_outcome(DriverOutcome::Failed).delay_ms, 100);
    assert_eq!(s.on_outcome(DriverOutcome::Failed).delay_ms, 200);
    assert_eq!(s.on_outcome(DriverOutcome::Failed).delay_ms, 400);
    for _ in 0..20 {
        s.on_outcome(DriverOutcome::Failed);
    }
    assert_eq!(s.on_outcome(DriverOutcome::Failed).delay_ms, 30_000);
    let clean = s.on_outcome(DriverOutcome::Completed);
    assert_eq!(clean, Retry { abort_driver: false, delay_ms: 0 });
    assert_eq!(s.backoff_ms(), 100);
    assert_eq!(s.on_outcome(DriverOutcome::Failed).delay_ms, 100);
    assert_eq!(s.on_outcome(DriverOutcome::Failed).delay_ms, 200);
}

#[test]
fn a_fault_aborts_the_driver_and_backs_off_like_a_failure() {
    let mut s = Supervisor::new();
    assert_eq!(s.on_outcome(DriverOutcome::Fault), Retry { abort_driver: true, delay_ms: 100 });
    assert_eq!(
        s.on_outcome(DriverOutcome::TaskFailed),
        Retry { abort_driver: false, delay_ms: 200 }
    );
    assert_eq!(s.on_outcome(DriverOutcome::Fault), Retry { abort_driver: true, delay_ms: 400 });
    assert_eq!(s.backoff_ms(), 800);
}

#[test]
fn the_supervisor_never_gives_up() {
    let mut s = Supervisor::new();
    for i in 0..10_000u32 {
        let outcome = match i % 4 {
            0 => DriverOutcome::Failed,
            1 => DriverOutcome::TaskFailed,
            2 => DriverOutcome::Fault,
            _ => DriverOutcome::Failed,
        };
        let retry = s.on_outcome(outcome);
        assert!(retry.delay_ms >= 100 && retry.delay_ms <= 30_000);
    }
}
