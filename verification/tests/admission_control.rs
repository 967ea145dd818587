use exec_governor::{
    DatabaseStats, DatabaseTimeoutWrapper, GovernorError, OperationGuard, OperationOutcome,
};

#[test]
fn ceiling_rejects_the_extra_operation() {
    let mut w = DatabaseTimeoutWrapper::new(60).with_max_concurrent_operations(2);
    let g1 = w.try_begin_operation().unwrap();
    let g2 = w.try_begin_operation().unwrap();
    assert_eq!(w.get_stats().active_connections, 2);
    // The third concurrent attempt is rejected, distinguishably from a timeout.
    match w.try_begin_operation() {
        Err(GovernorError::AdmissionRejected) => {}
        _ => panic!("expected AdmissionRejected"),
    }
    assert_eq!(w.get_stats().active_connections, 2);
    assert_eq!(w.get_stats().total_operations, 2);
    // After any admitted operation completes, the count falls by exactly one
    // and a new operation is admitted again.
    w.complete_operation(g1, OperationOutcome::Succeeded);
    assert_eq!(w.get_stats().active_connections, 1);
    assert!(w.can_start_operation());
    let g3 = w.try_begin_operation().unwrap();
    assert_eq!(w.get_stats().active_connections, 2);
    w.complete_operation(g2, OperationOutcome::TimedOut);
    w.complete_operation(g3, OperationOutcome::Failed);
    assert_eq!(w.get_stats().active_connections, 0);
}

#[test]
fn outcomes_feed_the_right_counters() {
    let mut w = DatabaseTimeoutWrapper::new(60).with_max_concurrent_operations(10);
    let g = w.try_begin_operation().unwrap();
    w.complete_operation(g, OperationOutcome::Succeeded);
    let g = w.try_begin_operation().unwrap();
    w.complete_operation(g, OperationOutcome::TimedOut);
    let g = w.try_begin_operation().unwrap();
    w.complete_operation(g, OperationOutcome::Failed);
    let s = w.get_stats();
    assert_eq!(s.total_operations, 3);
    assert_eq!(s.successful_operations, 1);
    assert_eq!(s.timeout_operations, 1);
    assert_eq!(s.active_connections, 0);
}

#[test]
fn guard_release_is_the_sole_decrementer() {
    let mut stats = DatabaseStats::default();
    let guard = OperationGuard::new(&mut stats);
    assert_eq!(stats.active_connections, 1);
    assert_eq!(stats.total_operations, 1);
    guard.release(&mut stats);
    assert_eq!(stats.active_connections, 0);
    assert_eq!(stats.total_operations, 1);
}

#[test]
fn counters_move_one_at_a_time() {
    let mut s = DatabaseStats::default();
    s.increment_active();
    s.increment_total();
    s.increment_timeout();
    s.increment_successful();
    assert_eq!(s.log_stats(), (1, 1, 1, 1));
    s.decrement_active();
    assert_eq!(s.get_active_count(), 0);
    assert_eq!(s.log_stats(), (0, 1, 1, 1));
}

#[test]
fn wrapper_defaults() {
    let w = DatabaseTimeoutWrapper::new(60);
    assert_eq!(w.read_timeout_secs, 60);
    assert_eq!(w.max_concurrent_operations, 100);
    assert_eq!(w.get_stats(), DatabaseStats::default());
}
