use vstd::prelude::*;

verus! {

use crate::chunked::{ChunkedExecutionConfig, ChunkedExecutionEngine};
use crate::errors::GovernorError;
use crate::DEFAULT_CALL_GAS;
use vstd::arithmetic::div_mod::{lemma_div_is_ordered, lemma_div_multiples_vanish};

/// Wrapper that derives a time budget for each call from its requested gas
/// and decides whether a call may run locally at all.
///
/// All durations are whole seconds.
pub struct TimeoutWrapper {
    /// Base time budget, granted to small calls.
    pub rpc_timeout_secs: u64,
    /// Ceiling on the gas a local call may declare; `None` means no ceiling.
    pub max_local_gas_limit: Option<u64>,
    /// Whether the budget scales with the requested gas; when disabled the
    /// budget is always the base timeout.
    pub enable_progressive_timeout: bool,
    /// Upper bound of the scaled budget, for the largest operations.
    pub max_timeout_secs: u64,
    /// Engine used for calls large enough to be split into chunks.
    pub chunked_execution: ChunkedExecutionEngine,
}

/// Gas up to which a call is granted exactly the base budget.
pub const BASE_GAS_KNEE: u64 = 1_000_000;

/// Gas at which the budget reaches ten times the base; the middle piece of
/// the schedule interpolates between the two knees.
pub const SCALED_GAS_KNEE: u64 = 100_000_000;

/// Gas at and beyond which the budget is the configured maximum.
pub const MAX_GAS_KNEE: u64 = 2_000_000_000;

/// The middle piece of the schedule: linear interpolation from `base` at the
/// lower knee to `10 * base` at the upper knee, using floor division.
pub open spec fn spec_mid_budget(base: int, gas: int) -> int {
    (base * (99_000_000 + 9 * (gas - 1_000_000))) / 99_000_000
}

/// The upper piece of the schedule: linear interpolation from `10 * base` at
/// the upper knee to `max` at two billion gas, clamped beyond; when ten times
/// the base already meets `max`, the budget is simply `max`.
pub open spec fn spec_high_budget(base: int, max: int, gas: int) -> int {
    if 10 * base >= max {
        max
    } else {
        let g = if gas > MAX_GAS_KNEE as int {
            MAX_GAS_KNEE as int
        } else {
            gas
        };
        10 * base + ((max - 10 * base) * (g - 100_000_000)) / 1_900_000_000
    }
}

/// The full three-piece schedule mapping requested gas to a time budget in
/// seconds, always clamped to `max`.
pub open spec fn spec_timeout_secs(base: int, max: int, progressive: bool, gas: int) -> int
    recommends
        0 <= base <= max,
{
    if !progressive {
        base
    } else if gas <= BASE_GAS_KNEE as int {
        base
    } else if gas <= SCALED_GAS_KNEE as int {
        if spec_mid_budget(base, gas) >= max {
            max
        } else {
            spec_mid_budget(base, gas)
        }
    } else {
        if spec_high_budget(base, max, gas) >= max {
            max
        } else {
            spec_high_budget(base, max, gas)
        }
    }
}

/// The middle piece stays between `base` and `10 * base` on its whole gas
/// range, and is non-decreasing there.
proof fn lemma_mid_budget_bounds(base: int, ga: int, gb: int)
    requires
        0 <= base,
        1_000_000 <= ga <= gb <= 100_000_000,
    ensures
        base <= spec_mid_budget(base, ga),
        spec_mid_budget(base, gb) <= 10 * base,
        spec_mid_budget(base, ga) <= spec_mid_budget(base, gb),
{
    let na = base * (99_000_000 + 9 * (ga - 1_000_000));
    let nb = base * (99_000_000 + 9 * (gb - 1_000_000));
    assert(99_000_000 * base <= na) by (nonlinear_arith)
        requires
            0 <= base,
            ga >= 1_000_000,
            na == base * (99_000_000 + 9 * (ga - 1_000_000)),
    ;
    assert(na <= nb) by (nonlinear_arith)
        requires
            0 <= base,
            ga <= gb,
            na == base * (99_000_000 + 9 * (ga - 1_000_000)),
            nb == base * (99_000_000 + 9 * (gb - 1_000_000)),
    ;
    assert(nb <= 99_000_000 * (10 * base)) by (nonlinear_arith)
        requires
            0 <= base,
            gb <= 100_000_000,
            nb == base * (99_000_000 + 9 * (gb - 1_000_000)),
    ;
    lemma_div_is_ordered(99_000_000 * base, na, 99_000_000);
    lemma_div_is_ordered(na, nb, 99_000_000);
    lemma_div_is_ordered(nb, 99_000_000 * (10 * base), 99_000_000);
    lemma_div_multiples_vanish(base, 99_000_000);
    lemma_div_multiples_vanish(10 * base, 99_000_000);
}

/// The upper piece stays between `10 * base` (clamped to `max`) and `max`,
/// and is non-decreasing in the gas.
proof fn lemma_high_budget_bounds(base: int, max: int, ga: int, gb: int)
    requires
        0 <= base <= max,
        100_000_000 <= ga <= gb,
    ensures
        spec_high_budget(base, max, ga) <= spec_high_budget(base, max, gb),
        10 * base >= max ==> spec_high_budget(base, max, ga) == max,
        10 * base < max ==> spec_high_budget(base, max, ga) >= 10 * base,
{
    if 10 * base >= max {
        assert(spec_high_budget(base, max, ga) == max);
        assert(spec_high_budget(base, max, gb) == max);
    } else {
        let ca = if ga > MAX_GAS_KNEE as int { MAX_GAS_KNEE as int } else { ga };
        let cb = if gb > MAX_GAS_KNEE as int { MAX_GAS_KNEE as int } else { gb };
        assert(ca <= cb);
        let pa = (max - 10 * base) * (ca - 100_000_000);
        let pb = (max - 10 * base) * (cb - 100_000_000);
        assert(pa <= pb) by (nonlinear_arith)
            requires
                max - 10 * base >= 0,
                ca <= cb,
                pa == (max - 10 * base) * (ca - 100_000_000),
                pb == (max - 10 * base) * (cb - 100_000_000),
        ;
        lemma_div_is_ordered(pa, pb, 1_900_000_000);
        assert(0 <= pa) by (nonlinear_arith)
            requires
                max - 10 * base >= 0,
                ca >= 100_000_000,
                pa == (max - 10 * base) * (ca - 100_000_000),
        ;
        vstd::arithmetic::div_mod::lemma_div_pos_is_pos(pa, 1_900_000_000);
        vstd::arithmetic::div_mod::lemma_div_pos_is_pos(pb, 1_900_000_000);
    }
}

/// The time budget is non-decreasing in the requested gas, for a fixed
/// policy: a call never receives a smaller budget than any call requesting
/// less gas.
pub proof fn lemma_timeout_nondecreasing(base: int, max: int, progressive: bool, g1: int, g2: int)
    requires
        0 <= base <= max,
        0 <= g1 <= g2,
    ensures
        spec_timeout_secs(base, max, progressive, g1) <= spec_timeout_secs(
            base,
            max,
            progressive,
            g2,
        ),
{
    if !progressive {
        return ;
    }
    let t1 = spec_timeout_secs(base, max, true, g1);
    let t2 = spec_timeout_secs(base, max, true, g2);
    if g2 <= BASE_GAS_KNEE as int {
        assert(t1 == t2);
    } else if g2 <= SCALED_GAS_KNEE as int {
        if g1 <= BASE_GAS_KNEE as int {
            lemma_mid_budget_bounds(base, 1_000_000, g2);
            lemma_mid_budget_bounds(base, g2, g2);
        } else {
            lemma_mid_budget_bounds(base, g1, g2);
        }
    } else {
        lemma_high_budget_bounds(base, max, g2, g2);
        if g1 <= BASE_GAS_KNEE as int {
            assert(t1 == base);
            assert(10 * base >= base);
        } else if g1 <= SCALED_GAS_KNEE as int {
            lemma_mid_budget_bounds(base, g1, SCALED_GAS_KNEE as int);
            lemma_mid_budget_bounds(base, g1, g1);
        } else {
            lemma_high_budget_bounds(base, max, g1, g2);
        }
    }
}

/// At two billion gas and beyond, a progressive budget is exactly the
/// configured maximum.
pub proof fn lemma_timeout_reaches_max(base: int, max: int, gas: int)
    requires
        0 <= base <= max,
        gas >= MAX_GAS_KNEE,
    ensures
        spec_timeout_secs(base, max, true, gas) == max,
{
    if 10 * base < max {
        let p = (max - 10 * base) * ((MAX_GAS_KNEE as int) - 100_000_000);
        assert(p == 1_900_000_000 * (max - 10 * base)) by (nonlinear_arith)
            requires
                p == (max - 10 * base) * ((MAX_GAS_KNEE as int) - 100_000_000),
        ;
        lemma_div_multiples_vanish(max - 10 * base, 1_900_000_000);
    }
}

/// Requested gas of a call, with the default for a request that declares none.
pub open spec fn spec_effective_gas(gas_limit: Option<u64>) -> int {
    match gas_limit {
        Some(g) => g as int,
        None => DEFAULT_CALL_GAS as int,
    }
}

impl TimeoutWrapper {
    /// The configured base budget never exceeds the configured maximum.
    pub open spec fn wf(self) -> bool {
        self.rpc_timeout_secs <= self.max_timeout_secs
    }

    /// The budget this wrapper computes for the given declared gas.
    pub open spec fn spec_timeout_for(self, gas_limit: Option<u64>) -> int {
        spec_timeout_secs(
            self.rpc_timeout_secs as int,
            self.max_timeout_secs as int,
            self.enable_progressive_timeout,
            spec_effective_gas(gas_limit),
        )
    }

    /// Whether the declared gas exceeds the local ceiling and the call must be
    /// forwarded upstream instead of executed here.
    pub open spec fn spec_should_forward(self, gas_limit: Option<u64>) -> bool {
        self.max_local_gas_limit matches Some(max) && gas_limit matches Some(gas) && gas > max
    }

    pub fn new(rpc_timeout_secs: u64, max_local_gas_limit: Option<u64>) -> (r: Self)
        requires
            rpc_timeout_secs <= 3600,
        ensures
            r.rpc_timeout_secs == rpc_timeout_secs,
            r.max_local_gas_limit == max_local_gas_limit,
            r.enable_progressive_timeout,
            r.max_timeout_secs == 3600,
            r.chunked_execution.config.chunk_gas_limit == 50_000_000,
            r.chunked_execution.config.chunking_threshold == 100_000_000,
            r.chunked_execution.config.chunk_delay_ms == 100,
            r.chunked_execution.config.max_chunks == 100,
            r.chunked_execution.config.enable_progress_reporting,
            r.wf(),
    {
        TimeoutWrapper {
            rpc_timeout_secs,
            max_local_gas_limit,
            enable_progressive_timeout: true,
            max_timeout_secs: 3600,
            chunked_execution: ChunkedExecutionEngine::new(ChunkedExecutionConfig::default()),
        }
    }

    pub fn with_progressive_timeout(self, enable: bool, max_timeout_secs: u64) -> (r: Self)
        requires
            self.rpc_timeout_secs <= max_timeout_secs,
        ensures
            r == (TimeoutWrapper {
                enable_progressive_timeout: enable,
                max_timeout_secs,
                ..self
            }),
            r.wf(),
    {
        TimeoutWrapper { enable_progressive_timeout: enable, max_timeout_secs, ..self }
    }

    pub fn with_chunked_execution(self, config: ChunkedExecutionConfig) -> (r: Self)
        ensures
            r == (TimeoutWrapper {
                chunked_execution: ChunkedExecutionEngine { config },
                ..self
            }),
    {
        TimeoutWrapper { chunked_execution: ChunkedExecutionEngine::new(config), ..self }
    }

    /// Time budget in seconds for a call with the given declared gas.
    ///
    /// A call declaring no more than the lower knee of gas — and any call at
    /// all when progressive scaling is disabled — is granted exactly the base
    /// timeout; beyond that the budget follows the three-piece schedule and
    /// never exceeds the configured maximum.
    pub fn calculate_timeout(&self, gas_limit: Option<u64>) -> (r: u64)
        requires
            self.wf(),
        ensures
            r == self.spec_timeout_for(gas_limit),
            self.rpc_timeout_secs <= r <= self.max_timeout_secs,
            spec_effective_gas(gas_limit) <= BASE_GAS_KNEE as int ==> r == self.rpc_timeout_secs,
            !self.enable_progressive_timeout ==> r == self.rpc_timeout_secs,
    {
        proof {
            lemma_timeout_nondecreasing(
                self.rpc_timeout_secs as int,
                self.max_timeout_secs as int,
                self.enable_progressive_timeout,
                0,
                spec_effective_gas(gas_limit),
            );
        }
        if !self.enable_progressive_timeout {
            return self.rpc_timeout_secs;
        }
        let gas: u64 = match gas_limit {
            Some(g) => g,
            None => DEFAULT_CALL_GAS,
        };
        if gas <= BASE_GAS_KNEE {
            self.rpc_timeout_secs
        } else if gas <= SCALED_GAS_KNEE {
            let base: u128 = self.rpc_timeout_secs as u128;
            let max: u128 = self.max_timeout_secs as u128;
            proof {
                assert((self.rpc_timeout_secs as int) * (99_000_000 + 9 * (gas - 1_000_000))
                    <= (self.rpc_timeout_secs as int) * 990_000_000) by (nonlinear_arith)
                    requires
                        gas <= 100_000_000,
                        self.rpc_timeout_secs >= 0,
                ;
            }
            let v: u128 = (base * (99_000_000 + 9 * (gas as u128 - 1_000_000))) / 99_000_000;
            if v >= max {
                self.max_timeout_secs
            } else {
                v as u64
            }
        } else {
            let base: u128 = self.rpc_timeout_secs as u128;
            let max: u128 = self.max_timeout_secs as u128;
            let tenb: u128 = 10 * base;
            if tenb >= max {
                return self.max_timeout_secs;
            }
            let g: u64 = if gas > MAX_GAS_KNEE {
                MAX_GAS_KNEE
            } else {
                gas
            };
            proof {
                assert((max - tenb) * ((g - 100_000_000) as int) <= (max - tenb) * 1_900_000_000)
                    by (nonlinear_arith)
                    requires
                        g <= 2_000_000_000,
                        max - tenb >= 0,
                ;
            }
            let add: u128 = ((max - tenb) * (g as u128 - 100_000_000)) / 1_900_000_000;
            proof {
                lemma_div_is_ordered(
                    ((max - tenb) as int) * ((g - 100_000_000) as int),
                    ((max - tenb) as int) * 1_900_000_000,
                    1_900_000_000,
                );
                lemma_div_multiples_vanish((max - tenb) as int, 1_900_000_000);
                assert(((max - tenb) as int) * 1_900_000_000 == 1_900_000_000 * ((max - tenb)
                    as int)) by (nonlinear_arith);
            }
            let v: u128 = tenb + add;
            if v >= max {
                self.max_timeout_secs
            } else {
                v as u64
            }
        }
    }

    /// Whether the declared gas exceeds the maximum allowed for local
    /// execution, so the call should be forwarded upstream.
    pub fn should_forward_call(&self, gas_limit: Option<u64>) -> (r: bool)
        ensures
            r == self.spec_should_forward(gas_limit),
    {
        match (self.max_local_gas_limit, gas_limit) {
            (Some(max_local), Some(gas)) => gas > max_local,
            _ => false,
        }
    }

    /// Decide how a call with the given declared gas is to be executed.
    ///
    /// A request over the local gas ceiling is rejected outright with
    /// `GasLimitExceeded`, before any execution attempt; every other request
    /// receives a plan holding its time budget and whether it runs as one
    /// direct attempt or through the chunked engine. The same decision governs
    /// calls and gas estimations.
    pub fn plan_call(&self, gas_limit: Option<u64>) -> (r: Result<CallPlan, GovernorError>)
        requires
            self.wf(),
        ensures
            r is Err <==> self.spec_should_forward(gas_limit),
            r is Err ==> r == Err::<CallPlan, GovernorError>(GovernorError::GasLimitExceeded),
            r matches Ok(plan) ==> {
                &&& plan.timeout_secs == self.spec_timeout_for(gas_limit)
                &&& plan.effective_gas == spec_effective_gas(gas_limit)
                &&& plan.path == (if gas_limit matches Some(g) && g
                    >= self.chunked_execution.config.chunking_threshold {
                    ExecutionPath::Chunked
                } else {
                    ExecutionPath::Direct
                })
            },
    {
        if self.should_forward_call(gas_limit) {
            return Err(GovernorError::GasLimitExceeded);
        }
        let timeout_secs: u64 = self.calculate_timeout(gas_limit);
        let effective_gas: u64 = match gas_limit {
            Some(g) => g,
            None => DEFAULT_CALL_GAS,
        };
        let path: ExecutionPath = if self.chunked_execution.should_use_chunking(gas_limit) {
            ExecutionPath::Chunked
        } else {
            ExecutionPath::Direct
        };
        Ok(CallPlan { timeout_secs, effective_gas, path })
    }
}

/// How an admitted call is to be executed.
#[derive(Clone, Copy, Debug, PartialEq, Eq, Structural)]
pub enum ExecutionPath {
    /// One bounded execution attempt.
    Direct,
    /// Sequential bounded sub-calls through the chunked engine.
    Chunked,
}

/// Decision for one inbound request: its time budget in seconds, the gas it
/// is treated as requesting, and the execution path chosen for it.
#[derive(Clone, Copy, Debug, PartialEq, Eq, Structural)]
pub struct CallPlan {
    pub timeout_secs: u64,
    pub effective_gas: u64,
    pub path: ExecutionPath,
}

/// Extension trait for types that expose a call-timeout wrapper.
pub trait RpcTimeoutExt {
    fn timeout_wrapper(&self) -> &TimeoutWrapper;
}

} // verus!
