//! Execution resource governor for a blockchain node's read-only call path.
//!
//! The library decides whether, how, and for how long an execution attempt may
//! run: it maps a requested gas limit to a time budget, splits oversized calls
//! into bounded chunks, admission-controls concurrent storage operations, and
//! resolves previously recorded precompile results for a replaying EVM.

use vstd::prelude::*;

mod builder;
mod chunked;
mod errors;
mod precompile;
mod stats;
mod timeout;

pub use builder::{HlEthApiBuilder, HlNodeArgs};
pub use chunked::{ChunkRun, ChunkedExecutionConfig, ChunkedExecutionEngine, ExecutionProgress};
pub use errors::GovernorError;
pub use precompile::{
    archive_coarse_bucket, archive_fine_bucket, decompress_archive, resolve_precompiles,
    AddressPrecompiles, BlockPrecompiles, PrecompileCall, PrecompileChannel, ResolutionSource,
};
pub use stats::{
    DatabaseStats, DatabaseTimeoutExt, DatabaseTimeoutWrapper, OperationGuard, OperationOutcome,
};
pub use timeout::{CallPlan, ExecutionPath, RpcTimeoutExt, TimeoutWrapper};

verus! {

/// Default gas assumed for a request that declares none: a plain transfer.
pub const DEFAULT_CALL_GAS: u64 = 21_000;

} // verus!
