use exec_governor::{ExecutionPath, GovernorError, TimeoutWrapper};

#[test]
fn base_timeout_for_small_gas() {
    let w = TimeoutWrapper::new(30, None);
    assert_eq!(w.calculate_timeout(Some(1)), 30);
    assert_eq!(w.calculate_timeout(Some(21_000)), 30);
    assert_eq!(w.calculate_timeout(Some(1_000_000)), 30);
}

#[test]
fn base_timeout_when_gas_absent() {
    let w = TimeoutWrapper::new(30, None);
    assert_eq!(w.calculate_timeout(None), 30);
}

#[test]
fn base_timeout_when_progressive_disabled() {
    let w = TimeoutWrapper::new(30, None).with_progressive_timeout(false, 3600);
    assert_eq!(w.calculate_timeout(Some(2_000_000_000)), 30);
    assert_eq!(w.calculate_timeout(Some(50_000_000)), 30);
}

#[test]
fn mid_range_scales_toward_ten_times_base() {
    let w = TimeoutWrapper::new(30, None);
    // 30 * (1 + 9 * 49_000_000 / 99_000_000) seconds, floored.
    assert_eq!(w.calculate_timeout(Some(50_000_000)), 163);
    // At the upper knee the budget is exactly ten times the base.
    assert_eq!(w.calculate_timeout(Some(100_000_000)), 300);
    // Just above the lower knee the budget is still the base, after flooring.
    assert_eq!(w.calculate_timeout(Some(1_000_001)), 30);
}

#[test]
fn high_range_reaches_the_maximum() {
    let w = TimeoutWrapper::new(30, None);
    let t = w.calculate_timeout(Some(1_000_000_001));
    assert!(t >= 300 && t <= 3600);
    assert_eq!(t, 1863);
    // Strictly increasing toward the maximum as gas approaches two billion.
    let t2 = w.calculate_timeout(Some(1_200_000_000));
    let t3 = w.calculate_timeout(Some(1_600_000_000));
    let t4 = w.calculate_timeout(Some(2_000_000_000));
    assert!(t < t2 && t2 < t3 && t3 < t4);
    assert_eq!(t4, 3600);
    // Clamped beyond two billion.
    assert_eq!(w.calculate_timeout(Some(u64::MAX)), 3600);
}

#[test]
fn timeout_is_nondecreasing_samples() {
    let w = TimeoutWrapper::new(30, None);
    let gases = [
        0,
        21_000,
        1_000_000,
        1_000_001,
        10_000_000,
        50_000_000,
        100_000_000,
        100_000_001,
        500_000_000,
        1_999_999_999,
        2_000_000_000,
        u64::MAX,
    ];
    let mut prev = 0u64;
    for g in gases {
        let t = w.calculate_timeout(Some(g));
        assert!(t >= prev, "timeout decreased at gas {}", g);
        prev = t;
    }
}

#[test]
fn gas_ceiling_rejects_before_execution() {
    let w = TimeoutWrapper::new(30, Some(1_000_000));
    // Any request over the ceiling fails with GasLimitExceeded and produces
    // no execution plan at all.
    assert_eq!(
        w.plan_call(Some(1_000_001)),
        Err(GovernorError::GasLimitExceeded)
    );
    assert_eq!(
        w.plan_call(Some(u64::MAX)),
        Err(GovernorError::GasLimitExceeded)
    );
    assert!(w.should_forward_call(Some(1_000_001)));
    // At or below the ceiling the call is planned.
    assert!(w.plan_call(Some(1_000_000)).is_ok());
    assert!(!w.should_forward_call(Some(1_000_000)));
    // No ceiling configured: nothing is forwarded.
    let open = TimeoutWrapper::new(30, None);
    assert!(!open.should_forward_call(Some(u64::MAX)));
    // No declared gas: the ceiling cannot apply.
    assert!(!w.should_forward_call(None));
}

#[test]
fn undeclared_gas_runs_direct_under_base_timeout() {
    let w = TimeoutWrapper::new(30, Some(1_000_000));
    let plan = w.plan_call(None).unwrap();
    assert_eq!(plan.effective_gas, 21_000);
    assert_eq!(plan.path, ExecutionPath::Direct);
    assert_eq!(plan.timeout_secs, 30);
}

#[test]
fn chunking_threshold_selects_the_path() {
    let w = TimeoutWrapper::new(30, None);
    let direct = w.plan_call(Some(99_999_999)).unwrap();
    assert_eq!(direct.path, ExecutionPath::Direct);
    let chunked = w.plan_call(Some(100_000_000)).unwrap();
    assert_eq!(chunked.path, ExecutionPath::Chunked);
    assert_eq!(chunked.timeout_secs, 300);
}
