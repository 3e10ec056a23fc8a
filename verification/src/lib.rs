//! Self-play episode engine and position-accounting engine for training
//! trading-decision models.
//!
//! Prices, fees and utilities are exact fixed-point integers or rationals;
//! the surrounding binary converts to and from its own numeric types.

mod backtester;
mod bar;
mod basic_strategy;
mod config;
mod errors;
mod inferrer;
mod instrument;
mod iteration;
mod iteration_stat;
mod model;
mod model_id;
mod model_set;
mod model_type;
mod order;
mod paths;
mod play;
mod position;
mod profit;
mod random_model;
mod ratio;
mod rng;
mod sample;
mod strategy;
mod utility;

pub use backtester::{
    emits_profit, positions_wf, profits_wf, settle_bar, settle_pos_post, submit_order,
    timestamps_non_decreasing, volume_sum, Backtester,
};
pub use bar::{dataset_all_finite, dataset_prices_wf, Bar, DatasetRef, MAX_PRICE};
pub use basic_strategy::{
    closing_decision, closing_decision_spec, opening_decision, opening_decision_spec, util_ge,
    util_gt_zero, BasicStrategy,
};
pub use config::{CliArgs, Config, IterationConfig, MAX_FEE, MAX_MULTIPLIER, MAX_PENALTY_BPS};
pub use errors::{ModelError, ModelTypeError, PositionError};
pub use inferrer::{inference_indices, Inference, Inferrer};
pub use instrument::{instrument_id_eq, InstrumentId, InstrumentSpec};
pub use iteration::{
    count_variant, counts_total, drive_play, empty_sample_buffers, merge_samples, run_plays,
    run_plays_sequentially, sample_from_play, sample_total, samples_from_plays, samples_wf,
    Iteration,
};
pub use iteration_stat::{sat_add_i64, sat_add_usize, IterationStat};
pub use model::Model;
pub use model_id::ModelId;
pub use model_set::ModelSet;
pub use model_type::{ModelAction, ModelSide, ModelType, N_MODEL_TYPES};
pub use order::Order;
pub use paths::{
    digit_seq, i128_to_string, model_path, spec_decimal, spec_int_decimal, u128_to_string,
    usize_to_string,
};
pub use play::{
    advance_with_spec, closing_bar_index, lemma_horizon_bound, lemma_nan_finishes,
    lemma_utility_return_monotone, next_finite_index, price_return, round_trip_fee, side_sign,
    start_price, utility_den, utility_num, InferenceRequest, Play,
};
pub use position::{
    closed_lots, closing_profit_num, in_i128, lemma_fifo_two_orders,
    lemma_flat_position_has_zero_average, next_order,
    on_bar_close_post, on_bar_fits, on_bar_is_closing, on_bar_open_post, on_bar_post,
    on_bar_volume, position_sign, Position,
};
pub use profit::Profit;
pub use random_model::RandomModel;
pub use ratio::Ratio;
pub use sample::Sample;
pub use strategy::Strategy;
pub use utility::Utility;
