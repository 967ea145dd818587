use vstd::prelude::*;

verus! {

use crate::chunked::ChunkedExecutionConfig;
use crate::stats::DatabaseTimeoutWrapper;
use crate::timeout::TimeoutWrapper;

/// Node options recognized by the governor, as they arrive from the command
/// line or the environment. Every option is independently overridable and the
/// defaults reproduce the documented behaviour.
#[derive(Debug, Clone)]
pub struct HlNodeArgs {
    /// Upstream RPC URL that calls are forwarded to, when forwarding is on.
    pub upstream_rpc_url: Option<String>,
    /// Compliant mode: filter system transactions and foreign logs.
    pub hl_node_compliant: bool,
    /// Forward calls and gas estimations to the upstream RPC.
    pub forward_call: bool,
    /// Timeout for RPC calls in seconds.
    pub rpc_call_timeout: u64,
    /// Timeout for database read transactions in seconds.
    pub db_read_timeout: u64,
    /// Maximum gas limit for local RPC calls; `None` means no ceiling.
    pub max_local_gas_limit: Option<u64>,
    /// Maximum concurrent database operations.
    pub max_concurrent_db_ops: u64,
    /// Scale the call timeout with the requested gas.
    pub enable_progressive_timeout: bool,
    /// Upper bound of the scaled timeout in seconds.
    pub max_timeout_secs: u64,
    /// Gas granted to each chunk of an oversized operation.
    pub chunk_gas_limit: u64,
    /// Gas threshold at which chunked execution starts.
    pub chunking_threshold: u64,
}

impl Default for HlNodeArgs {
    fn default() -> (r: Self)
        ensures
            r.upstream_rpc_url is None,
            !r.hl_node_compliant,
            !r.forward_call,
            r.rpc_call_timeout == 30,
            r.db_read_timeout == 60,
            r.max_local_gas_limit is None,
            r.max_concurrent_db_ops == 100,
            r.enable_progressive_timeout,
            r.max_timeout_secs == 3600,
            r.chunk_gas_limit == 50_000_000,
            r.chunking_threshold == 100_000_000,
    {
        HlNodeArgs {
            upstream_rpc_url: None,
            hl_node_compliant: false,
            forward_call: false,
            rpc_call_timeout: 30,
            db_read_timeout: 60,
            max_local_gas_limit: None,
            max_concurrent_db_ops: 100,
            enable_progressive_timeout: true,
            max_timeout_secs: 3600,
            chunk_gas_limit: 50_000_000,
            chunking_threshold: 100_000_000,
        }
    }
}

/// Builder for the governor's RPC-facing configuration.
#[derive(Debug)]
pub struct HlEthApiBuilder {
    /// Compliant mode: filter system transactions and foreign logs.
    pub hl_node_compliant: bool,
    /// RPC call timeout in seconds.
    pub rpc_call_timeout: u64,
    /// Maximum gas limit for local calls; `None` means no ceiling.
    pub max_local_gas_limit: Option<u64>,
    /// Database read timeout in seconds.
    pub db_read_timeout: u64,
    /// Maximum concurrent database operations.
    pub max_concurrent_db_ops: u64,
    /// Enable progressive timeout scaling.
    pub enable_progressive_timeout: bool,
    /// Maximum timeout for the largest operations, in seconds.
    pub max_timeout_secs: u64,
    /// Chunked execution configuration.
    pub chunked_execution_config: ChunkedExecutionConfig,
}

impl Default for HlEthApiBuilder {
    fn default() -> (r: Self)
        ensures
            !r.hl_node_compliant,
            r.rpc_call_timeout == 30,
            r.max_local_gas_limit is None,
            r.db_read_timeout == 60,
            r.max_concurrent_db_ops == 100,
            r.enable_progressive_timeout,
            r.max_timeout_secs == 3600,
            r.chunked_execution_config.chunk_gas_limit == 50_000_000,
            r.chunked_execution_config.chunking_threshold == 100_000_000,
            r.chunked_execution_config.chunk_delay_ms == 100,
            r.chunked_execution_config.max_chunks == 100,
            r.chunked_execution_config.enable_progress_reporting,
    {
        HlEthApiBuilder {
            hl_node_compliant: false,
            rpc_call_timeout: 30,
            max_local_gas_limit: None,
            db_read_timeout: 60,
            max_concurrent_db_ops: 100,
            enable_progressive_timeout: true,
            max_timeout_secs: 3600,
            chunked_execution_config: ChunkedExecutionConfig::default(),
        }
    }
}

impl HlEthApiBuilder {
    /// Set whether the node is in compliant mode.
    pub fn with_hl_node_compliant(self, hl_node_compliant: bool) -> (r: Self)
        ensures
            r == (HlEthApiBuilder { hl_node_compliant, ..self }),
    {
        HlEthApiBuilder { hl_node_compliant, ..self }
    }

    /// Set the RPC call timeout in seconds.
    pub fn with_rpc_call_timeout(self, timeout_secs: u64) -> (r: Self)
        ensures
            r == (HlEthApiBuilder { rpc_call_timeout: timeout_secs, ..self }),
    {
        HlEthApiBuilder { rpc_call_timeout: timeout_secs, ..self }
    }

    /// Set the maximum gas limit for local calls.
    pub fn with_max_local_gas_limit(self, max_gas: Option<u64>) -> (r: Self)
        ensures
            r == (HlEthApiBuilder { max_local_gas_limit: max_gas, ..self }),
    {
        HlEthApiBuilder { max_local_gas_limit: max_gas, ..self }
    }

    /// Set the database read timeout in seconds.
    pub fn with_db_read_timeout(self, timeout_secs: u64) -> (r: Self)
        ensures
            r == (HlEthApiBuilder { db_read_timeout: timeout_secs, ..self }),
    {
        HlEthApiBuilder { db_read_timeout: timeout_secs, ..self }
    }

    /// Set the maximum concurrent database operations.
    pub fn with_max_concurrent_db_ops(self, max_ops: u64) -> (r: Self)
        ensures
            r == (HlEthApiBuilder { max_concurrent_db_ops: max_ops, ..self }),
    {
        HlEthApiBuilder { max_concurrent_db_ops: max_ops, ..self }
    }

    /// Set progressive timeout configuration.
    pub fn with_progressive_timeout(self, enable: bool, max_timeout_secs: u64) -> (r: Self)
        ensures
            r == (HlEthApiBuilder {
                enable_progressive_timeout: enable,
                max_timeout_secs,
                ..self
            }),
    {
        HlEthApiBuilder { enable_progressive_timeout: enable, max_timeout_secs, ..self }
    }

    /// Set chunked execution configuration.
    pub fn with_chunked_execution_config(self, config: ChunkedExecutionConfig) -> (r: Self)
        ensures
            r == (HlEthApiBuilder { chunked_execution_config: config, ..self }),
    {
        HlEthApiBuilder { chunked_execution_config: config, ..self }
    }

    /// The call-timeout wrapper this configuration describes.
    pub fn build_timeout_wrapper(&self) -> (r: TimeoutWrapper)
        requires
            self.rpc_call_timeout <= self.max_timeout_secs,
            self.rpc_call_timeout <= 3600,
        ensures
            r.rpc_timeout_secs == self.rpc_call_timeout,
            r.max_local_gas_limit == self.max_local_gas_limit,
            r.enable_progressive_timeout == self.enable_progressive_timeout,
            r.max_timeout_secs == self.max_timeout_secs,
            r.chunked_execution.config == self.chunked_execution_config,
            r.wf(),
    {
        TimeoutWrapper::new(
            self.rpc_call_timeout,
            self.max_local_gas_limit,
        ).with_progressive_timeout(
            self.enable_progressive_timeout,
            self.max_timeout_secs,
        ).with_chunked_execution(self.chunked_execution_config)
    }

    /// The storage-operation wrapper this configuration describes.
    pub fn build_db_timeout_wrapper(&self) -> (r: DatabaseTimeoutWrapper)
        ensures
            r.read_timeout_secs == self.db_read_timeout,
            r.max_concurrent_operations == self.max_concurrent_db_ops,
            r.stats.active_connections == 0,
            r.stats.total_operations == 0,
            r.stats.timeout_operations == 0,
            r.stats.successful_operations == 0,
    {
        DatabaseTimeoutWrapper::new(self.db_read_timeout).with_max_concurrent_operations(
            self.max_concurrent_db_ops,
        )
    }
}

impl HlNodeArgs {
    /// The API builder these options describe; forwarding and the upstream
    /// URL are consumed by the surrounding node, not by the governor.
    pub fn api_builder(&self) -> (r: HlEthApiBuilder)
        ensures
            r.hl_node_compliant == self.hl_node_compliant,
            r.rpc_call_timeout == self.rpc_call_timeout,
            r.max_local_gas_limit == self.max_local_gas_limit,
            r.db_read_timeout == self.db_read_timeout,
            r.max_concurrent_db_ops == self.max_concurrent_db_ops,
            r.enable_progressive_timeout == self.enable_progressive_timeout,
            r.max_timeout_secs == self.max_timeout_secs,
            r.chunked_execution_config.chunk_gas_limit == self.chunk_gas_limit,
            r.chunked_execution_config.chunking_threshold == self.chunking_threshold,
            r.chunked_execution_config.chunk_delay_ms == 100,
            r.chunked_execution_config.max_chunks == 100,
            r.chunked_execution_config.enable_progress_reporting,
    {
        let chunked = ChunkedExecutionConfig {
            chunk_gas_limit: self.chunk_gas_limit,
            chunking_threshold: self.chunking_threshold,
            ..ChunkedExecutionConfig::default()
        };
        HlEthApiBuilder::default()
            .with_hl_node_compliant(self.hl_node_compliant)
            .with_rpc_call_timeout(self.rpc_call_timeout)
            .with_max_local_gas_limit(self.max_local_gas_limit)
            .with_db_read_timeout(self.db_read_timeout)
            .with_max_concurrent_db_ops(self.max_concurrent_db_ops)
            .with_progressive_timeout(self.enable_progressive_timeout, self.max_timeout_secs)
            .with_chunked_execution_config(chunked)
    }
}

} // verus!
