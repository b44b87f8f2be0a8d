//! A generic simulated-annealing engine: given a problem definition
//! describing candidate states, reversible local moves and an
//! objective to minimise, it searches for a low-scoring state through
//! a temperature-controlled stochastic local search, optionally as
//! several independent restarts whose best result is returned.
//!
//! The engine works on fixed-point scores and temperatures, so its
//! control logic carries full contracts: the returned score is the
//! objective value of the returned state, a run never ends worse than
//! it started, the cooling schedule strictly decreases within a pass,
//! and the reheat count stays below the configured budget. The
//! pseudorandom generators of the rand crate enter only through
//! wrappers that promise nothing of their output, so every guarantee
//! holds for every random stream.

use vstd::prelude::*;

verus! {

/// Immutable parameters of an annealing run.
///
/// Scores and temperatures throughout this crate are fixed-point values:
/// the caller picks a scale (for example, micro-units) and reports every
/// objective value and temperature in those same units. Only ratios of
/// score differences to temperatures enter the acceptance rule, so the
/// scale cancels out.
#[derive(Clone, Copy)]
pub struct AnnealingOptions {
    /// Number of cooling steps per pass from the starting temperature
    /// down to `limit_temp`.
    pub steps: usize,
    /// Terminal temperature of a cooling pass, in the caller's score units.
    pub limit_temp: i64,
    /// Maximum number of cooling passes before the run gives up.
    pub restart: usize,
    /// Number of independent runs whose best result is returned.
    pub threads: usize,
    /// Suppresses diagnostics in front ends that emit them; the engine
    /// itself never branches on this flag.
    pub silent: bool,
}

impl AnnealingOptions {
    /// The parameter ranges under which a run is well defined.
    pub open spec fn wf(self) -> bool {
        &&& 1 <= self.steps
        &&& 1 <= self.limit_temp <= crate::annealer::TEMP_LIMIT
        &&& 1 <= self.restart
        &&& 1 <= self.threads
    }
}

/// Yields one independent sub-seed per worker, derived
/// deterministically from the top-level seed through a dedicated
/// controlling random stream.
pub fn derive_seeds(seed: u64, n: usize) -> (seeds: Vec<u64>)
    ensures
        seeds@.len() == n as int,
{
    let mut rng = crate::rng::std_rng_from_seed(seed);
    let mut seeds: Vec<u64> = Vec::new();
    let mut i: usize = 0;
    while i < n
        invariant
            i <= n,
            seeds@.len() == i as int,
        decreases n - i,
    {
        let s = crate::rng::std_rng_next_u64(&mut rng);
        seeds.push(s);
        i = i + 1;
    }
    seeds
}

/// Reduces the runs' results to the one with the globally minimum
/// score; among equal minima the earliest is kept, as an iterator
/// minimum would keep it.
pub fn select_best<S>(results: Vec<(i64, S)>) -> (r: (i64, S))
    requires
        results@.len() >= 1,
    ensures
        forall|i: int| 0 <= i < results@.len() ==> r.0 <= (#[trigger] results@[i]).0,
        exists|i: int|
            0 <= i < results@.len() && r == #[trigger] results@[i] && (forall|j: int|
                0 <= j < i ==> (#[trigger] results@[j]).0 > r.0),
{
    let mut best: usize = 0;
    let mut idx: usize = 1;
    while idx < results.len()
        invariant
            results@.len() >= 1,
            best < idx <= results@.len(),
            forall|j: int| 0 <= j < idx ==> results@[best as int].0 <= (#[trigger] results@[j]).0,
            forall|j: int| 0 <= j < best ==> (#[trigger] results@[j]).0 > results@[best as int].0,
        decreases results@.len() - idx,
    {
        if results[idx].0 < results[best].0 {
            best = idx;
        }
        idx = idx + 1;
    }
    let mut results = results;
    results.remove(best)
}

/// Runs the search: a single run when one worker is configured,
/// otherwise one independent run per configured worker, each with its
/// own derived seed, reduced to the globally best result. The returned
/// score is the objective value of the returned state.
pub fn annealing<A: crate::annealer::Annealer>(
    annealer: &A,
    opt: &AnnealingOptions,
    seed: u64,
) -> (r: (i64, A::State))
    requires
        opt.wf(),
    ensures
        r.0 == annealer.spec_eval(r.1),
{
    if opt.threads == 1 {
        crate::engine::do_annealing(annealer, opt, seed)
    } else {
        let seeds = derive_seeds(seed, opt.threads);
        let mut results: Vec<(i64, A::State)> = Vec::new();
        let mut i: usize = 0;
        while i < opt.threads
            invariant
                opt.wf(),
                i <= opt.threads,
                seeds@.len() == opt.threads as int,
                results@.len() == i as int,
                forall|k: int|
                    0 <= k < results@.len() ==> (#[trigger] results@[k]).0 == annealer.spec_eval(
                        results@[k].1,
                    ),
            decreases opt.threads - i,
        {
            let res = crate::engine::do_annealing(annealer, opt, seeds[i]);
            results.push(res);
            i = i + 1;
        }
        select_best(results)
    }
}

} // verus!

pub mod annealer;
pub mod engine;
pub mod metropolis;
pub mod problems;
pub mod rng;
pub mod schedule;

pub use annealer::Annealer;
pub use annealer::SCORE_LIMIT;
pub use annealer::TEMP_LIMIT;
pub use engine::RunReport;
pub use engine::anneal_from;
pub use engine::do_annealing;
