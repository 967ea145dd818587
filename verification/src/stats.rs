use vstd::prelude::*;

verus! {

use crate::errors::GovernorError;

/// Process-wide statistics for guarded storage operations.
///
/// The aggregate is owned by the governor and passed by reference into every
/// call site; it is created once, only ever incremented or decremented, and
/// never reset while the process runs.
#[derive(Clone, Copy, Debug, PartialEq, Eq, Structural)]
pub struct DatabaseStats {
    /// Operations currently admitted and not yet released.
    pub active_connections: u64,
    /// Operations ever admitted.
    pub total_operations: u64,
    /// Operations that hit their time budget.
    pub timeout_operations: u64,
    /// Operations that completed successfully.
    pub successful_operations: u64,
}

impl Default for DatabaseStats {
    fn default() -> (r: Self)
        ensures
            r.active_connections == 0,
            r.total_operations == 0,
            r.timeout_operations == 0,
            r.successful_operations == 0,
    {
        DatabaseStats {
            active_connections: 0,
            total_operations: 0,
            timeout_operations: 0,
            successful_operations: 0,
        }
    }
}

impl DatabaseStats {
    pub fn increment_active(&mut self)
        requires
            old(self).active_connections < u64::MAX,
        ensures
            *final(self) == (DatabaseStats {
                active_connections: (old(self).active_connections + 1) as u64,
                ..*old(self)
            }),
    {
        self.active_connections = self.active_connections + 1;
    }

    pub fn decrement_active(&mut self)
        requires
            old(self).active_connections >= 1,
        ensures
            *final(self) == (DatabaseStats {
                active_connections: (old(self).active_connections - 1) as u64,
                ..*old(self)
            }),
    {
        self.active_connections = self.active_connections - 1;
    }

    pub fn increment_total(&mut self)
        requires
            old(self).total_operations < u64::MAX,
        ensures
            *final(self) == (DatabaseStats {
                total_operations: (old(self).total_operations + 1) as u64,
                ..*old(self)
            }),
    {
        self.total_operations = self.total_operations + 1;
    }

    pub fn increment_timeout(&mut self)
        requires
            old(self).timeout_operations < u64::MAX,
        ensures
            *final(self) == (DatabaseStats {
                timeout_operations: (old(self).timeout_operations + 1) as u64,
                ..*old(self)
            }),
    {
        self.timeout_operations = self.timeout_operations + 1;
    }

    pub fn increment_successful(&mut self)
        requires
            old(self).successful_operations < u64::MAX,
        ensures
            *final(self) == (DatabaseStats {
                successful_operations: (old(self).successful_operations + 1) as u64,
                ..*old(self)
            }),
    {
        self.successful_operations = self.successful_operations + 1;
    }

    pub fn get_active_count(&self) -> (r: u64)
        ensures
            r == self.active_connections,
    {
        self.active_connections
    }

    /// Snapshot of all four counters, in the order active, total, timed out,
    /// successful, for periodic health reporting.
    pub fn log_stats(&self) -> (r: (u64, u64, u64, u64))
        ensures
            r.0 == self.active_connections,
            r.1 == self.total_operations,
            r.2 == self.timeout_operations,
            r.3 == self.successful_operations,
    {
        (
            self.active_connections,
            self.total_operations,
            self.timeout_operations,
            self.successful_operations,
        )
    }
}

/// How a guarded operation's scope ended. Timeouts and underlying failures
/// are tracked separately, so storage-layer exhaustion stays distinguishable
/// from execution failures.
#[derive(Clone, Copy, Debug, PartialEq, Eq, Structural)]
pub enum OperationOutcome {
    Succeeded,
    Failed,
    TimedOut,
}

/// Scoped token held while a guarded operation runs.
///
/// Acquiring it is the only way the active count rises, and releasing it —
/// which consumes the token, so it can happen only once — is the only way the
/// active count falls. The caller must release it on every exit path:
/// success, failure, or timeout.
pub struct OperationGuard {
    _private: (),
}

impl OperationGuard {
    /// Admit one operation: raise the active count and the running total.
    pub fn new(stats: &mut DatabaseStats) -> (r: Self)
        requires
            old(stats).active_connections < u64::MAX,
            old(stats).total_operations < u64::MAX,
        ensures
            *final(stats) == (DatabaseStats {
                active_connections: (old(stats).active_connections + 1) as u64,
                total_operations: (old(stats).total_operations + 1) as u64,
                ..*old(stats)
            }),
    {
        stats.increment_active();
        stats.increment_total();
        OperationGuard { _private: () }
    }

    /// Release the guard when its operation's scope ends, lowering the active
    /// count by exactly one whatever the outcome was.
    pub fn release(self, stats: &mut DatabaseStats)
        requires
            old(stats).active_connections >= 1,
        ensures
            *final(stats) == (DatabaseStats {
                active_connections: (old(stats).active_connections - 1) as u64,
                ..*old(stats)
            }),
    {
        stats.decrement_active();
    }
}

/// Admission-controlled wrapper for storage operations: bounds how many run
/// concurrently, tracks statistics, and accounts for per-operation timeouts.
///
/// All durations are whole seconds.
pub struct DatabaseTimeoutWrapper {
    /// Time budget of one guarded operation.
    pub read_timeout_secs: u64,
    /// The statistics aggregate all guarded operations update.
    pub stats: DatabaseStats,
    /// Concurrency ceiling: operations beyond it are rejected, not queued.
    pub max_concurrent_operations: u64,
}

/// Whether a wrapper in this state admits one more operation.
pub open spec fn spec_can_admit(w: DatabaseTimeoutWrapper) -> bool {
    w.stats.active_connections < w.max_concurrent_operations
}

impl DatabaseTimeoutWrapper {
    pub fn new(read_timeout_secs: u64) -> (r: Self)
        ensures
            r.read_timeout_secs == read_timeout_secs,
            r.stats.active_connections == 0,
            r.stats.total_operations == 0,
            r.stats.timeout_operations == 0,
            r.stats.successful_operations == 0,
            r.max_concurrent_operations == 100,
    {
        DatabaseTimeoutWrapper {
            read_timeout_secs,
            stats: DatabaseStats::default(),
            max_concurrent_operations: 100,
        }
    }

    pub fn with_max_concurrent_operations(self, max: u64) -> (r: Self)
        ensures
            r == (DatabaseTimeoutWrapper { max_concurrent_operations: max, ..self }),
    {
        DatabaseTimeoutWrapper { max_concurrent_operations: max, ..self }
    }

    pub fn get_stats(&self) -> (r: DatabaseStats)
        ensures
            r == self.stats,
    {
        self.stats
    }

    /// Whether a new operation can start without breaching the ceiling.
    pub fn can_start_operation(&self) -> (r: bool)
        ensures
            r == spec_can_admit(*self),
    {
        self.stats.get_active_count() < self.max_concurrent_operations
    }

    /// Admit one guarded operation, or reject it when the ceiling is reached.
    ///
    /// Rejection is immediate, leaves every counter untouched, and is
    /// reported as `AdmissionRejected` — distinguishable from a timeout.
    pub fn try_begin_operation(&mut self) -> (r: Result<OperationGuard, GovernorError>)
        requires
            old(self).stats.total_operations < u64::MAX,
        ensures
            final(self).read_timeout_secs == old(self).read_timeout_secs,
            final(self).max_concurrent_operations == old(self).max_concurrent_operations,
            r is Ok <==> spec_can_admit(*old(self)),
            r is Err ==> r == Err::<OperationGuard, GovernorError>(
                GovernorError::AdmissionRejected,
            ) && *final(self) == *old(self),
            r is Ok ==> final(self).stats == (DatabaseStats {
                active_connections: (old(self).stats.active_connections + 1) as u64,
                total_operations: (old(self).stats.total_operations + 1) as u64,
                ..old(self).stats
            }),
    {
        if !self.can_start_operation() {
            return Err(GovernorError::AdmissionRejected);
        }
        let guard = OperationGuard::new(&mut self.stats);
        Ok(guard)
    }

    /// End an admitted operation's scope: release its guard and account for
    /// the outcome. The active count falls by exactly one; a success raises
    /// the success counter, a timeout the timeout counter, and an underlying
    /// failure raises neither.
    pub fn complete_operation(&mut self, guard: OperationGuard, outcome: OperationOutcome)
        requires
            old(self).stats.active_connections >= 1,
            old(self).stats.successful_operations < u64::MAX,
            old(self).stats.timeout_operations < u64::MAX,
        ensures
            final(self).read_timeout_secs == old(self).read_timeout_secs,
            final(self).max_concurrent_operations == old(self).max_concurrent_operations,
            final(self).stats == (DatabaseStats {
                active_connections: (old(self).stats.active_connections - 1) as u64,
                successful_operations: if outcome == OperationOutcome::Succeeded {
                    (old(self).stats.successful_operations + 1) as u64
                } else {
                    old(self).stats.successful_operations
                },
                timeout_operations: if outcome == OperationOutcome::TimedOut {
                    (old(self).stats.timeout_operations + 1) as u64
                } else {
                    old(self).stats.timeout_operations
                },
                ..old(self).stats
            }),
    {
        match outcome {
            OperationOutcome::Succeeded => self.stats.increment_successful(),
            OperationOutcome::TimedOut => self.stats.increment_timeout(),
            OperationOutcome::Failed => (),
        }
        guard.release(&mut self.stats);
    }
}

/// Admission-control law: when the active count has reached the ceiling the
/// next attempted operation is rejected, and as soon as any admitted
/// operation releases its guard — lowering the active count by exactly one —
/// a new operation can be admitted again.
pub proof fn lemma_admission_control(at_ceiling: DatabaseTimeoutWrapper, released: DatabaseTimeoutWrapper)
    requires
        at_ceiling.stats.active_connections >= at_ceiling.max_concurrent_operations,
        at_ceiling.max_concurrent_operations >= 1,
        released.max_concurrent_operations == at_ceiling.max_concurrent_operations,
        released.stats.active_connections == at_ceiling.stats.active_connections - 1,
        at_ceiling.stats.active_connections == at_ceiling.max_concurrent_operations,
    ensures
        !spec_can_admit(at_ceiling),
        spec_can_admit(released),
{
}

/// Extension trait for types that expose a storage-operation wrapper.
pub trait DatabaseTimeoutExt {
    fn db_timeout_wrapper(&self) -> &DatabaseTimeoutWrapper;
}

} // verus!
