use crate::bar::MAX_PRICE;
use vstd::prelude::*;

verus! {

/// Highest contract multiplier the engine accepts.
pub const MAX_MULTIPLIER: i64 = 1_000_000;

/// Highest per-lot fee the engine accepts, in the caller's monetary unit.
pub const MAX_FEE: i64 = MAX_PRICE;

/// Largest magnitude of the constant utility penalty, in basis points.
pub const MAX_PENALTY_BPS: i64 = 1_000_000;

/// Parameters of one self-play training iteration.
#[derive(Debug, Clone)]
pub struct IterationConfig {
    pub n_plays: u64,
    pub concurrency: u64,
    pub output_dir: String,
    pub fee_per_contract_usd: i64,
    pub multiplier: i64,
    pub utility_penalty_bps: i64,
    pub max_play_duration_in_bars: u64,
}

impl IterationConfig {
    /// Ranges under which the exact basis-point arithmetic of an episode's
    /// utility stays inside `i128`.
    pub open spec fn wf(self) -> bool {
        &&& 1 <= self.multiplier <= MAX_MULTIPLIER
        &&& 0 <= self.fee_per_contract_usd <= MAX_FEE
        &&& -MAX_PENALTY_BPS <= self.utility_penalty_bps <= MAX_PENALTY_BPS
        &&& self.max_play_duration_in_bars <= usize::MAX as u64
    }

    /// Runtime check matching `wf`, for callers outside verified code.
    pub fn is_valid(&self) -> (r: bool)
        ensures
            r == self.wf(),
    {
        1 <= self.multiplier && self.multiplier <= MAX_MULTIPLIER && 0
            <= self.fee_per_contract_usd && self.fee_per_contract_usd <= MAX_FEE
            && -MAX_PENALTY_BPS <= self.utility_penalty_bps && self.utility_penalty_bps
            <= MAX_PENALTY_BPS && self.max_play_duration_in_bars <= usize::MAX as u64
    }
}

/// Full configuration surface of a training run.
#[derive(Debug, Clone)]
pub struct Config {
    pub print_config: bool,
    pub dataset_path: String,
    pub start_iteration: u64,
    pub n_iterations: u64,
    pub iteration: IterationConfig,
}

/// Command-line argument surface.
#[derive(Debug, Clone)]
pub struct CliArgs {
    pub print_config: bool,
    pub config_path: String,
}

} // verus!
