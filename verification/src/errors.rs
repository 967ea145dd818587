use vstd::prelude::*;

verus! {

/// Error taxonomy of the governor.
///
/// Every rejected or failed call is reported through one of these kinds, so a
/// caller can always tell a gas-ceiling rejection from a timeout, an admission
/// rejection from a failed chunk, and so on.
#[derive(Clone, Copy, Debug, PartialEq, Eq, Structural)]
pub enum GovernorError {
    /// The declared gas limit exceeds the configured local ceiling; the caller
    /// should forward the request to an upstream node instead.
    GasLimitExceeded,
    /// The derived time budget expired before the execution finished.
    Timeout,
    /// Too many guarded storage operations are already running; transient and
    /// retryable by the caller.
    AdmissionRejected,
    /// One chunk of a chunked execution failed; the whole operation is
    /// aborted and the failing chunk is identified.
    ChunkFailed { index: u32 },
    /// An archived precompile entry could not be read, decompressed or
    /// decoded; resolution degrades to an empty set instead of failing.
    CacheResolutionFailed,
    /// Opaque pass-through from the wrapped execution capability.
    UnderlyingExecutionError,
}

impl GovernorError {
    /// Human-readable description of the error; the gas-ceiling rejection
    /// carries its remediation guidance.
    pub fn message(&self) -> (r: &'static str)
        ensures
            self is GasLimitExceeded ==> r@
                == "gas limit too high for local execution; enable forwarding to handle high gas limit calls"@,
            self is Timeout ==> r@ == "execution timed out"@,
            self is AdmissionRejected ==> r@ == "too many concurrent database operations"@,
            self is ChunkFailed ==> r@ == "a chunk of the execution failed"@,
            self is CacheResolutionFailed ==> r@ == "failed to resolve archived precompile calls"@,
            self is UnderlyingExecutionError ==> r@ == "execution failed"@,
    {
        match self {
            GovernorError::GasLimitExceeded => "gas limit too high for local execution; enable forwarding to handle high gas limit calls",
            GovernorError::Timeout => "execution timed out",
            GovernorError::AdmissionRejected => "too many concurrent database operations",
            GovernorError::ChunkFailed { .. } => "a chunk of the execution failed",
            GovernorError::CacheResolutionFailed => "failed to resolve archived precompile calls",
            GovernorError::UnderlyingExecutionError => "execution failed",
        }
    }
}

} // verus!
