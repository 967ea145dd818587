use vstd::prelude::*;

verus! {

use vstd::arithmetic::div_mod::{
    lemma_div_pos_is_pos, lemma_fundamental_div_mod, lemma_mod_bound,
};

/// Configuration for chunked execution of oversized calls.
#[derive(Debug, Clone, Copy)]
pub struct ChunkedExecutionConfig {
    /// Gas granted to each chunk but the last.
    pub chunk_gas_limit: u64,
    /// Minimum declared gas at which chunking is used.
    pub chunking_threshold: u64,
    /// Delay between chunks, to let the storage layer reclaim resources.
    pub chunk_delay_ms: u64,
    /// Upper bound on the number of chunks one call may be split into.
    pub max_chunks: u32,
    /// Whether per-chunk progress is reported.
    pub enable_progress_reporting: bool,
}

impl ChunkedExecutionConfig {
    /// A configuration is usable when each chunk grants at least one unit of gas.
    pub open spec fn wf(self) -> bool {
        self.chunk_gas_limit >= 1
    }
}

impl Default for ChunkedExecutionConfig {
    fn default() -> (r: Self)
        ensures
            r.chunk_gas_limit == 50_000_000,
            r.chunking_threshold == 100_000_000,
            r.chunk_delay_ms == 100,
            r.max_chunks == 100,
            r.enable_progress_reporting,
            r.wf(),
    {
        ChunkedExecutionConfig {
            chunk_gas_limit: 50_000_000,
            chunking_threshold: 100_000_000,
            chunk_delay_ms: 100,
            max_chunks: 100,
            enable_progress_reporting: true,
        }
    }
}

/// Mathematical ceiling of `gas / unit`.
pub open spec fn ceil_div(gas: int, unit: int) -> int
    recommends
        unit >= 1,
{
    if gas % unit == 0 {
        gas / unit
    } else {
        gas / unit + 1
    }
}

/// Number of chunks a call of `gas` is split into: the ceiling of
/// `gas / limit`, capped at `max_chunks`.
pub open spec fn spec_chunk_count(gas: int, limit: int, max_chunks: int) -> int
    recommends
        limit >= 1,
{
    if ceil_div(gas, limit) > max_chunks {
        max_chunks
    } else {
        ceil_div(gas, limit)
    }
}

/// Whether the chunk cap cuts the call short of its declared gas.
pub open spec fn spec_is_capped(gas: int, limit: int, max_chunks: int) -> bool {
    ceil_div(gas, limit) > max_chunks
}

/// Gas granted to chunk `i`: the per-chunk limit for every chunk except,
/// in an uncapped run, the last chunk, which receives the exact remainder.
pub open spec fn spec_chunk_gas(gas: int, limit: int, max_chunks: int, i: int) -> int
    recommends
        limit >= 1,
        0 <= i < spec_chunk_count(gas, limit, max_chunks),
{
    if spec_is_capped(gas, limit, max_chunks) {
        limit
    } else if i == spec_chunk_count(gas, limit, max_chunks) - 1 {
        gas - (spec_chunk_count(gas, limit, max_chunks) - 1) * limit
    } else {
        limit
    }
}

/// Total gas granted over all chunks: the declared gas, unless the chunk cap
/// clips it to `limit * max_chunks`.
pub open spec fn spec_total_granted(gas: int, limit: int, max_chunks: int) -> int {
    if spec_is_capped(gas, limit, max_chunks) {
        limit * max_chunks
    } else {
        gas
    }
}

/// Sum of the gas grants in a schedule.
pub open spec fn sum_gas(s: Seq<u64>) -> int
    decreases s.len(),
{
    if s.len() == 0 {
        0
    } else {
        sum_gas(s.drop_last()) + s.last()
    }
}

/// The ceiling division `ceil_div` brackets its argument: `gas` lies in the
/// half-open interval `((n - 1) * unit, n * unit]` for `n = ceil_div(gas, unit)`
/// and positive `gas`.
pub proof fn lemma_ceil_div_bounds(gas: int, unit: int)
    requires
        gas >= 0,
        unit >= 1,
    ensures
        ceil_div(gas, unit) >= 0,
        gas <= ceil_div(gas, unit) * unit,
        gas >= 1 ==> ceil_div(gas, unit) >= 1 && (ceil_div(gas, unit) - 1) * unit < gas,
        gas == 0 ==> ceil_div(gas, unit) == 0,
{
    let q = gas / unit;
    let r = gas % unit;
    lemma_fundamental_div_mod(gas, unit);
    lemma_mod_bound(gas, unit);
    lemma_div_pos_is_pos(gas, unit);
    assert(gas == unit * q + r);
    if r == 0 {
        assert(ceil_div(gas, unit) == q);
        assert(q * unit == gas) by (nonlinear_arith)
            requires
                gas == unit * q + r,
                r == 0,
        ;
        if gas >= 1 {
            assert(q >= 1) by (nonlinear_arith)
                requires
                    q * unit == gas,
                    gas >= 1,
                    unit >= 1,
                    q >= 0,
            ;
            assert((q - 1) * unit < gas) by (nonlinear_arith)
                requires
                    q * unit == gas,
                    unit >= 1,
            ;
        }
        if gas == 0 {
            assert(q == 0) by (nonlinear_arith)
                requires
                    q * unit == gas,
                    gas == 0,
                    unit >= 1,
                    q >= 0,
            ;
        }
    } else {
        assert(ceil_div(gas, unit) == q + 1);
        assert(gas <= (q + 1) * unit) by (nonlinear_arith)
            requires
                gas == unit * q + r,
                r < unit,
        ;
        assert(q * unit < gas) by (nonlinear_arith)
            requires
                gas == unit * q + r,
                r >= 1,
        ;
        assert(gas >= 1) by (nonlinear_arith)
            requires
                gas == unit * q + r,
                r >= 1,
                q >= 0,
                unit >= 1,
        ;
    }
}

/// Chunked execution engine for massive gas operations.
pub struct ChunkedExecutionEngine {
    pub config: ChunkedExecutionConfig,
}

impl ChunkedExecutionEngine {
    pub fn new(config: ChunkedExecutionConfig) -> (r: Self)
        ensures
            r.config == config,
    {
        ChunkedExecutionEngine { config }
    }

    /// Whether an operation with the given declared gas uses chunked execution.
    pub fn should_use_chunking(&self, gas_limit: Option<u64>) -> (r: bool)
        ensures
            r == (gas_limit matches Some(gas) && gas >= self.config.chunking_threshold),
    {
        match gas_limit {
            Some(gas) => gas >= self.config.chunking_threshold,
            None => false,
        }
    }

    /// Number of chunks needed for the given gas limit.
    pub fn calculate_chunks(&self, gas_limit: u64) -> (n: u32)
        requires
            self.config.wf(),
        ensures
            n == spec_chunk_count(
                gas_limit as int,
                self.config.chunk_gas_limit as int,
                self.config.max_chunks as int,
            ),
    {
        let limit: u128 = self.config.chunk_gas_limit as u128;
        let chunks: u128 = (gas_limit as u128 + limit - 1) / limit;
        proof {
            lemma_ceil_exec_form(gas_limit as int, self.config.chunk_gas_limit as int);
        }
        if chunks > self.config.max_chunks as u128 {
            self.config.max_chunks
        } else {
            chunks as u32
        }
    }
}

impl ChunkedExecutionEngine {
    /// Per-chunk gas grants for a call of `gas_limit`, in execution order.
    ///
    /// Every chunk is granted `chunk_gas_limit` except, when the chunk cap
    /// does not clip the call, the last one, which is granted the exact
    /// remainder, so that the grants sum to the declared gas.
    pub fn chunk_schedule(&self, gas_limit: u64) -> (v: Vec<u64>)
        requires
            self.config.wf(),
        ensures
            v@.len() == spec_chunk_count(
                gas_limit as int,
                self.config.chunk_gas_limit as int,
                self.config.max_chunks as int,
            ),
            forall|i: int|
                0 <= i < v@.len() ==> v@[i] == spec_chunk_gas(
                    gas_limit as int,
                    self.config.chunk_gas_limit as int,
                    self.config.max_chunks as int,
                    i,
                ),
            sum_gas(v@) == spec_total_granted(
                gas_limit as int,
                self.config.chunk_gas_limit as int,
                self.config.max_chunks as int,
            ),
    {
        let n: u32 = self.calculate_chunks(gas_limit);
        let limit: u64 = self.config.chunk_gas_limit;
        let ceil: u128 = (gas_limit as u128 + limit as u128 - 1) / limit as u128;
        let capped: bool = ceil > self.config.max_chunks as u128;
        let ghost g = gas_limit as int;
        let ghost l = self.config.chunk_gas_limit as int;
        let ghost m = self.config.max_chunks as int;
        proof {
            lemma_ceil_exec_form(g, l);
            lemma_ceil_div_bounds(g, l);
        }
        let mut v: Vec<u64> = Vec::new();
        let mut i: u32 = 0;
        while i < n
            invariant
                self.config.wf(),
                g == gas_limit as int,
                l == self.config.chunk_gas_limit as int,
                m == self.config.max_chunks as int,
                limit == self.config.chunk_gas_limit,
                n == spec_chunk_count(g, l, m),
                capped == spec_is_capped(g, l, m),
                !capped ==> n == ceil_div(g, l),
                g <= ceil_div(g, l) * l,
                g >= 1 ==> ceil_div(g, l) >= 1 && (ceil_div(g, l) - 1) * l < g,
                g == 0 ==> ceil_div(g, l) == 0,
                i <= n,
                v@.len() == i as int,
                forall|j: int| 0 <= j < i ==> v@[j] == spec_chunk_gas(g, l, m, j),
                sum_gas(v@) == if capped || (i as int) < (n as int) {
                    (i as int) * l
                } else {
                    g
                },
            decreases n - i,
        {
            let ghost prev = v@;
            let val: u64 = if !capped && i == n - 1 {
                proof {
                    assert(g >= 1);
                    assert(((n - 1) as int) * l < g) by (nonlinear_arith)
                        requires
                            (ceil_div(g, l) - 1) * l < g,
                            n == ceil_div(g, l),
                    ;
                }
                gas_limit - (i as u64) * limit
            } else {
                limit
            };
            v.push(val);
            proof {
                assert(v@.drop_last() =~= prev);
                assert(((i + 1) as int) * l == (i as int) * l + l) by (nonlinear_arith);
            }
            i = i + 1;
        }
        proof {
            if capped {
                assert((n as int) * l == m * l);
                assert(m * l == l * m) by (nonlinear_arith);
            }
        }
        v
    }
}

/// The executable form `(gas + unit - 1) / unit` computes the mathematical
/// ceiling of `gas / unit`.
pub proof fn lemma_ceil_exec_form(gas: int, unit: int)
    requires
        gas >= 0,
        unit >= 1,
    ensures
        (gas + unit - 1) / unit == ceil_div(gas, unit),
{
    let q = gas / unit;
    let r = gas % unit;
    lemma_fundamental_div_mod(gas, unit);
    lemma_mod_bound(gas, unit);
    if r == 0 {
        assert(gas + unit - 1 == unit * q + (unit - 1)) by (nonlinear_arith)
            requires
                gas == unit * q + r,
                r == 0,
        ;
        vstd::arithmetic::div_mod::lemma_div_multiples_vanish_fancy(q, unit - 1, unit);
    } else {
        assert(gas + unit - 1 == unit * (q + 1) + (r - 1)) by (nonlinear_arith)
            requires
                gas == unit * q + r,
        ;
        vstd::arithmetic::div_mod::lemma_div_multiples_vanish_fancy(q + 1, r - 1, unit);
    }
}

/// Progress of a chunked execution; derived and advisory only, never used to
/// gate execution.
#[derive(Debug, Clone)]
pub struct ExecutionProgress {
    pub total_gas: u64,
    pub processed_gas: u64,
    pub current_chunk: u32,
    pub total_chunks: u32,
    /// Time spent so far, in milliseconds.
    pub elapsed_ms: u64,
    /// Extrapolation from the mean duration of completed chunks, in
    /// milliseconds; saturates rather than overflows.
    pub estimated_remaining_ms: u64,
}

impl ExecutionProgress {
    /// Progress after `current_chunk` chunks of `total_chunks` have finished.
    ///
    /// The remaining time is estimated as the mean duration of the completed
    /// chunks times the number still to run; with only one chunk done there is
    /// no meaningful mean yet and the estimate is zero.
    pub fn compute(
        total_gas: u64,
        processed_gas: u64,
        current_chunk: u32,
        total_chunks: u32,
        elapsed_ms: u64,
    ) -> (r: Self)
        requires
            1 <= current_chunk <= total_chunks,
        ensures
            r.total_gas == total_gas,
            r.processed_gas == processed_gas,
            r.current_chunk == current_chunk,
            r.total_chunks == total_chunks,
            r.elapsed_ms == elapsed_ms,
            current_chunk == 1 ==> r.estimated_remaining_ms == 0,
            current_chunk > 1 ==> {
                let est = (elapsed_ms as int / current_chunk as int) * (total_chunks
                    - current_chunk);
                r.estimated_remaining_ms == if est > u64::MAX { u64::MAX as int } else { est }
            },
    {
        let estimated_remaining_ms: u64 = if current_chunk > 1 {
            let avg: u64 = elapsed_ms / current_chunk as u64;
            proof {
                assert((avg as int) * ((total_chunks - current_chunk) as int) < u128::MAX as int)
                    by (nonlinear_arith)
                    requires
                        0 <= avg <= u64::MAX as int,
                        0 <= total_chunks - current_chunk <= u32::MAX as int,
                ;
            }
            let est: u128 = avg as u128 * (total_chunks - current_chunk) as u128;
            if est > u64::MAX as u128 {
                u64::MAX
            } else {
                est as u64
            }
        } else {
            0
        };
        ExecutionProgress {
            total_gas,
            processed_gas,
            current_chunk,
            total_chunks,
            elapsed_ms,
            estimated_remaining_ms,
        }
    }
}

/// State of one chunked operation: the gas schedule, how far it has run, the
/// accumulated gas estimate, and the most recent call output.
///
/// The caller drives the chunks strictly sequentially: it asks for the next
/// grant, performs the execution attempt outside this library, and records the
/// outcome here before moving on.
pub struct ChunkRun {
    /// Per-chunk gas grants, fixed when the run starts.
    pub schedule: Vec<u64>,
    /// Index of the next chunk to execute.
    pub next_chunk: usize,
    /// Sum of the per-chunk gas estimates recorded so far.
    pub estimate_total: u128,
    /// Output of the most recently completed call chunk; the final chunk's
    /// output is the result of the whole call.
    pub last_output: Option<Vec<u8>>,
}

impl ChunkRun {
    pub open spec fn wf(self) -> bool {
        &&& self.next_chunk <= self.schedule@.len()
        &&& self.estimate_total <= (self.next_chunk as int) * (u64::MAX as int)
    }

    /// Gas grant of the next chunk to execute, or `None` when the run is done.
    pub fn next_chunk_gas(&self) -> (r: Option<u64>)
        ensures
            self.next_chunk < self.schedule@.len() ==> r == Some(
                self.schedule@[self.next_chunk as int],
            ),
            self.next_chunk >= self.schedule@.len() ==> r is None,
    {
        if self.next_chunk < self.schedule.len() {
            Some(self.schedule[self.next_chunk])
        } else {
            None
        }
    }

    /// Record the output of the chunk that just completed a call attempt.
    /// Earlier outputs are discarded: only the final chunk's output survives.
    pub fn record_call_output(&mut self, output: Vec<u8>)
        requires
            old(self).wf(),
            old(self).next_chunk < old(self).schedule@.len(),
        ensures
            final(self).wf(),
            final(self).schedule == old(self).schedule,
            final(self).next_chunk == old(self).next_chunk + 1,
            final(self).estimate_total == old(self).estimate_total,
            final(self).last_output == Some(output),
    {
        proof {
            vstd::std_specs::vec::axiom_spec_len(&self.schedule);
        }
        self.last_output = Some(output);
        self.next_chunk = self.next_chunk + 1;
    }

    /// Record the gas estimate of the chunk that just completed an estimation
    /// attempt; estimates are summed into the running total.
    pub fn record_estimate(&mut self, estimate: u64)
        requires
            old(self).wf(),
            old(self).next_chunk < old(self).schedule@.len(),
        ensures
            final(self).wf(),
            final(self).schedule == old(self).schedule,
            final(self).next_chunk == old(self).next_chunk + 1,
            final(self).estimate_total == old(self).estimate_total + estimate,
            final(self).last_output == old(self).last_output,
    {
        proof {
            vstd::std_specs::vec::axiom_spec_len(&self.schedule);
            let next1 = old(self).next_chunk + 1;
            assert(old(self).estimate_total + estimate <= next1 * (u64::MAX as int));
            assert(next1 * (u64::MAX as int) < u128::MAX as int) by (nonlinear_arith)
                requires
                    0 <= next1 <= usize::MAX as int,
            ;
        }
        self.estimate_total = self.estimate_total + estimate as u128;
        self.next_chunk = self.next_chunk + 1;
    }

    /// Whether every chunk of the schedule has been executed.
    pub fn is_complete(&self) -> (r: bool)
        ensures
            r == (self.next_chunk >= self.schedule@.len()),
    {
        self.next_chunk >= self.schedule.len()
    }

    /// Whether the inter-chunk delay applies: there is another chunk to run
    /// after the one just recorded.
    pub fn needs_delay(&self) -> (r: bool)
        ensures
            r == (self.next_chunk < self.schedule@.len()),
    {
        self.next_chunk < self.schedule.len()
    }

    /// Sum of all recorded per-chunk gas estimates.
    pub fn total_estimate(&self) -> (r: u128)
        ensures
            r == self.estimate_total,
    {
        self.estimate_total
    }
}

impl ChunkedExecutionEngine {
    /// Begin a chunked run for the given declared gas: a fresh state whose
    /// schedule is `chunk_schedule(gas_limit)`.
    pub fn start_run(&self, gas_limit: u64) -> (r: ChunkRun)
        requires
            self.config.wf(),
        ensures
            r.wf(),
            r.next_chunk == 0,
            r.estimate_total == 0,
            r.last_output is None,
            r.schedule@.len() == spec_chunk_count(
                gas_limit as int,
                self.config.chunk_gas_limit as int,
                self.config.max_chunks as int,
            ),
            forall|i: int|
                0 <= i < r.schedule@.len() ==> r.schedule@[i] == spec_chunk_gas(
                    gas_limit as int,
                    self.config.chunk_gas_limit as int,
                    self.config.max_chunks as int,
                    i,
                ),
            sum_gas(r.schedule@) == spec_total_granted(
                gas_limit as int,
                self.config.chunk_gas_limit as int,
                self.config.max_chunks as int,
            ),
    {
        ChunkRun {
            schedule: self.chunk_schedule(gas_limit),
            next_chunk: 0,
            estimate_total: 0,
            last_output: None,
        }
    }
}

} // verus!
