use exec_governor::{ChunkedExecutionConfig, ChunkedExecutionEngine, ExecutionProgress, GovernorError};

fn default_engine() -> ChunkedExecutionEngine {
    ChunkedExecutionEngine::new(ChunkedExecutionConfig::default())
}

#[test]
fn chunk_count_is_capped_ceiling() {
    let e = default_engine();
    assert_eq!(e.calculate_chunks(2_000_000_000), 40);
    assert_eq!(e.calculate_chunks(150_000_000), 3);
    assert_eq!(e.calculate_chunks(0), 0);
    assert_eq!(e.calculate_chunks(1), 1);
    assert_eq!(e.calculate_chunks(50_000_000), 1);
    assert_eq!(e.calculate_chunks(50_000_001), 2);
    // The cap: 100 chunks of 50M cover 5B gas; more gas still gives 100.
    assert_eq!(e.calculate_chunks(5_000_000_000), 100);
    assert_eq!(e.calculate_chunks(u64::MAX), 100);
}

#[test]
fn should_use_chunking_at_threshold() {
    let e = default_engine();
    assert!(!e.should_use_chunking(None));
    assert!(!e.should_use_chunking(Some(99_999_999)));
    assert!(e.should_use_chunking(Some(100_000_000)));
    assert!(e.should_use_chunking(Some(u64::MAX)));
}

#[test]
fn schedule_sums_to_declared_gas() {
    let e = default_engine();
    let s = e.chunk_schedule(150_000_000);
    assert_eq!(s, vec![50_000_000, 50_000_000, 50_000_000]);

    let s = e.chunk_schedule(130_000_000);
    assert_eq!(s, vec![50_000_000, 50_000_000, 30_000_000]);
    let total: u64 = s.iter().sum();
    assert_eq!(total, 130_000_000);

    let s = e.chunk_schedule(2_000_000_000);
    assert_eq!(s.len(), 40);
    let total: u64 = s.iter().sum();
    assert_eq!(total, 2_000_000_000);
}

#[test]
fn capped_schedule_clips_total_gas() {
    let cfg = ChunkedExecutionConfig {
        chunk_gas_limit: 10,
        chunking_threshold: 10,
        chunk_delay_ms: 0,
        max_chunks: 2,
        enable_progress_reporting: false,
    };
    let e = ChunkedExecutionEngine::new(cfg);
    let s = e.chunk_schedule(100);
    assert_eq!(s, vec![10, 10]);
    let total: u64 = s.iter().sum();
    assert_eq!(total, 20);
}

#[test]
fn chunk_run_drives_sequentially() {
    let e = default_engine();
    let mut run = e.start_run(130_000_000);
    assert!(!run.is_complete());
    assert_eq!(run.next_chunk_gas(), Some(50_000_000));
    run.record_call_output(vec![1]);
    assert!(run.needs_delay());
    assert_eq!(run.next_chunk_gas(), Some(50_000_000));
    run.record_call_output(vec![2]);
    assert_eq!(run.next_chunk_gas(), Some(30_000_000));
    run.record_call_output(vec![3]);
    assert!(!run.needs_delay());
    assert!(run.is_complete());
    assert_eq!(run.next_chunk_gas(), None);
    // Only the final chunk's output survives.
    assert_eq!(run.last_output, Some(vec![3]));
}

#[test]
fn chunk_run_sums_estimates() {
    let e = default_engine();
    let mut run = e.start_run(150_000_000);
    run.record_estimate(40_000_000);
    run.record_estimate(45_000_000);
    run.record_estimate(30_000_000);
    assert!(run.is_complete());
    assert_eq!(run.total_estimate(), 115_000_000u128);
}

#[test]
fn chunk_failure_identifies_the_chunk() {
    let err = GovernorError::ChunkFailed { index: 7 };
    match err {
        GovernorError::ChunkFailed { index } => assert_eq!(index, 7),
        _ => panic!("wrong variant"),
    }
    assert_ne!(err, GovernorError::Timeout);
    assert_ne!(err, GovernorError::UnderlyingExecutionError);
}

#[test]
fn progress_extrapolates_from_mean_chunk_time() {
    // First chunk done: no meaningful mean yet.
    let p = ExecutionProgress::compute(100, 10, 1, 10, 500);
    assert_eq!(p.estimated_remaining_ms, 0);
    // Three of five chunks done in 300 ms: 100 ms per chunk, two remain.
    let p = ExecutionProgress::compute(100, 60, 3, 5, 300);
    assert_eq!(p.estimated_remaining_ms, 200);
    assert_eq!(p.total_gas, 100);
    assert_eq!(p.processed_gas, 60);
    assert_eq!(p.current_chunk, 3);
    assert_eq!(p.total_chunks, 5);
    assert_eq!(p.elapsed_ms, 300);
}
