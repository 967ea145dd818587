use exec_governor::{ChunkedExecutionConfig, HlEthApiBuilder, HlNodeArgs};

#[test]
fn defaults_reproduce_the_documented_configuration() {
    let args = HlNodeArgs::default();
    assert_eq!(args.rpc_call_timeout, 30);
    assert_eq!(args.db_read_timeout, 60);
    assert_eq!(args.max_local_gas_limit, None);
    assert_eq!(args.max_concurrent_db_ops, 100);
    assert!(args.enable_progressive_timeout);
    assert_eq!(args.max_timeout_secs, 3600);
    assert_eq!(args.chunk_gas_limit, 50_000_000);
    assert_eq!(args.chunking_threshold, 100_000_000);
    assert!(!args.forward_call);
    assert!(!args.hl_node_compliant);
    assert!(args.upstream_rpc_url.is_none());
}

#[test]
fn args_flow_into_the_api_builder() {
    let mut args = HlNodeArgs::default();
    args.rpc_call_timeout = 45;
    args.max_local_gas_limit = Some(1_000_000);
    args.chunk_gas_limit = 10_000_000;
    args.chunking_threshold = 20_000_000;
    let b = args.api_builder();
    assert_eq!(b.rpc_call_timeout, 45);
    assert_eq!(b.max_local_gas_limit, Some(1_000_000));
    assert_eq!(b.chunked_execution_config.chunk_gas_limit, 10_000_000);
    assert_eq!(b.chunked_execution_config.chunking_threshold, 20_000_000);
    assert_eq!(b.chunked_execution_config.chunk_delay_ms, 100);
    assert_eq!(b.chunked_execution_config.max_chunks, 100);
}

#[test]
fn builder_setters_set_one_field_each() {
    let b = HlEthApiBuilder::default()
        .with_hl_node_compliant(true)
        .with_rpc_call_timeout(10)
        .with_max_local_gas_limit(Some(5))
        .with_db_read_timeout(20)
        .with_max_concurrent_db_ops(7)
        .with_progressive_timeout(false, 100)
        .with_chunked_execution_config(ChunkedExecutionConfig {
            chunk_gas_limit: 1,
            chunking_threshold: 2,
            chunk_delay_ms: 3,
            max_chunks: 4,
            enable_progress_reporting: false,
        });
    assert!(b.hl_node_compliant);
    assert_eq!(b.rpc_call_timeout, 10);
    assert_eq!(b.max_local_gas_limit, Some(5));
    assert_eq!(b.db_read_timeout, 20);
    assert_eq!(b.max_concurrent_db_ops, 7);
    assert!(!b.enable_progressive_timeout);
    assert_eq!(b.max_timeout_secs, 100);
    assert_eq!(b.chunked_execution_config.max_chunks, 4);
}

#[test]
fn builder_builds_both_wrappers() {
    let b = HlEthApiBuilder::default()
        .with_rpc_call_timeout(15)
        .with_max_local_gas_limit(Some(2_000_000))
        .with_db_read_timeout(25)
        .with_max_concurrent_db_ops(8);
    let tw = b.build_timeout_wrapper();
    assert_eq!(tw.rpc_timeout_secs, 15);
    assert_eq!(tw.max_local_gas_limit, Some(2_000_000));
    assert!(tw.enable_progressive_timeout);
    assert_eq!(tw.max_timeout_secs, 3600);
    assert_eq!(tw.chunked_execution.config.chunk_gas_limit, 50_000_000);
    let dw = b.build_db_timeout_wrapper();
    assert_eq!(dw.read_timeout_secs, 25);
    assert_eq!(dw.max_concurrent_operations, 8);
    assert_eq!(dw.stats.active_connections, 0);
}
