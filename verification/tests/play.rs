use std::sync::Arc;
use cfr_proto::{
    Bar, DatasetRef, InferenceRequest, IterationConfig, ModelAction, ModelSide, ModelType, Play,
    Utility,
};

fn config(max_duration: u64) -> IterationConfig {
    IterationConfig {
        n_plays: 4,
        concurrency: 1,
        output_dir: "out".to_string(),
        fee_per_contract_usd: 15,
        multiplier: 20,
        utility_penalty_bps: 5,
        max_play_duration_in_bars: max_duration,
    }
}

fn finite_dataset(n: usize) -> DatasetRef {
    let mut bars: Vec<Bar> = Vec::new();
    for i in 0..n {
        bars.push(Bar { timestamp: i as i64, mid_price: 1000 + i as i64, point_is_finite: true });
    }
    Arc::new(bars)
}

fn long_opening() -> ModelType {
    ModelType { side: ModelSide::Long, action: ModelAction::Opening }
}

fn direct_play(dataset: DatasetRef, start: usize, current: usize, mt: ModelType) -> Play {
    Play {
        fee: 15,
        multiplier: 20,
        utility_penalty_bps: 5,
        max_play_duration_in_bars: 100,
        dataset,
        trained_model_type: mt,
        closing_model_type: ModelType { side: mt.side, action: ModelAction::Closing },
        start_index: start,
        current_index: current,
        finished: false,
        failed: false,
    }
}

#[test]
fn new_play_starts_on_a_finite_bar() {
    let dataset = finite_dataset(30);
    let play = Play::new(&config(10), dataset.clone(), long_opening());
    assert!(!play.is_finished());
    assert!(play.start_bar_index() < dataset.len());
    assert!(dataset[play.start_bar_index()].point_is_finite);
    assert_eq!(play.trained_model_type(), long_opening());
    assert_eq!(play.len(), 1);
}

#[test]
fn start_bars_stay_inside_the_sampling_window() {
    let dataset = finite_dataset(30);
    for _ in 0..200 {
        let play = Play::new(&config(10), dataset.clone(), long_opening());
        // on a dataset without missing data the start bar is the sampled
        // one, drawn from the first len - 10 bars
        assert!(play.start_bar_index() < dataset.len() - 10);
        assert!(!play.is_failed());
    }
}

#[test]
fn new_play_on_all_invalid_data_fails_closed() {
    let mut bars: Vec<Bar> = Vec::new();
    for i in 0..20 {
        bars.push(Bar { timestamp: i, mid_price: 1000, point_is_finite: false });
    }
    let mut play = Play::new(&config(10), Arc::new(bars), long_opening());
    assert!(play.is_finished());
    assert!(play.is_failed());
    assert_eq!(play.advance_to_inference(), None);
}

#[test]
fn requests_use_the_closing_model_of_the_trained_side() {
    let dataset = finite_dataset(30);
    let mut play = Play::new(&config(10), dataset, long_opening());
    let request: InferenceRequest = play.advance_to_inference().unwrap();
    assert_eq!(
        request.model_type,
        ModelType { side: ModelSide::Long, action: ModelAction::Closing }
    );
    assert_eq!(request.bar_index, play.start_bar_index() + 1);
}

#[test]
fn nan_inference_finishes_the_play_for_good() {
    let dataset = finite_dataset(30);
    let mut play = Play::new(&config(10), dataset, long_opening());
    assert!(play.advance_to_inference().is_some());
    play.advance_with_inference(Utility::NotANumber);
    assert!(play.is_finished());
    assert!(play.is_failed());
    assert_eq!(play.advance_to_inference(), None);
    assert_eq!(play.advance_to_inference(), None);
    assert!(play.is_finished());
    assert!(play.is_failed());
}

#[test]
fn non_positive_utility_finishes_the_play() {
    let dataset = finite_dataset(30);
    let mut play = Play::new(&config(10), dataset, long_opening());
    let before = play.len();
    assert!(play.advance_to_inference().is_some());
    play.advance_with_inference(Utility::Value(0));
    assert!(play.is_finished());
    assert!(!play.is_failed());
    assert_eq!(play.len(), before);
}

#[test]
fn horizon_bounds_elapsed_length() {
    let dataset = finite_dataset(40);
    let max_duration: u64 = 3;
    let mut play = Play::new(&config(max_duration), dataset, long_opening());
    let mut rounds = 0;
    while let Some(_request) = play.advance_to_inference() {
        play.advance_with_inference(Utility::Value(1));
        rounds += 1;
        assert!(rounds < 100);
    }
    assert!(play.is_finished());
    assert!(play.len() as u64 <= max_duration + 1);
}

#[test]
fn advance_skips_non_finite_bars() {
    let mut bars: Vec<Bar> = Vec::new();
    for i in 0..30 {
        let finite = i < 3 || i > 6;
        bars.push(Bar { timestamp: i, mid_price: 1000, point_is_finite: finite });
    }
    let mut play = direct_play(Arc::new(bars), 2, 3, long_opening());
    let request = play.advance_to_inference().unwrap();
    // bars 3..=6 are invalid, the first valid bar is 7
    assert_eq!(request.bar_index, 7);
}

#[test]
fn dataset_end_finishes_the_play() {
    let dataset = finite_dataset(12);
    let mut play = direct_play(dataset, 5, 12, long_opening());
    assert_eq!(play.advance_to_inference(), None);
    assert!(play.is_finished());
}

#[test]
fn utility_is_exact_round_trip_economics_in_bps() {
    let dataset = finite_dataset(30);
    // start price 1000, closing price 1005, Long/Opening:
    // ((5 * 1) * 20 - 2 * 15) * 10000 - 5 * (1000 * 20) over 1000 * 20
    let play = direct_play(dataset, 0, 5, long_opening());
    let utility = play.utility();
    assert_eq!(utility.num, (5 * 20 - 30) * 10000 - 5 * 20000);
    assert_eq!(utility.den, 20000);
}

#[test]
fn utility_of_exhausted_play_uses_last_bar() {
    let dataset = finite_dataset(12);
    // current index at the dataset end: the last bar (price 1011) closes it
    let play = direct_play(
        dataset,
        0,
        12,
        ModelType { side: ModelSide::Short, action: ModelAction::Closing },
    );
    let utility = play.utility();
    // Short side, no opening fee: ((11 * -1) * 20) * 10000 - 5 * 20000
    assert_eq!(utility.num, (-11 * 20) * 10000 - 5 * 20000);
    assert_eq!(utility.den, 20000);
}

#[test]
fn positive_return_raises_long_utility() {
    let mut bars: Vec<Bar> = Vec::new();
    bars.push(Bar { timestamp: 0, mid_price: 1000, point_is_finite: true });
    bars.push(Bar { timestamp: 1, mid_price: 1000, point_is_finite: true });
    for i in 2..30i64 {
        bars.push(Bar { timestamp: i, mid_price: 1000 + i, point_is_finite: true });
    }
    let dataset: DatasetRef = Arc::new(bars);
    let up = direct_play(dataset.clone(), 0, 5, long_opening());
    let flat = direct_play(dataset, 0, 1, long_opening());
    let u_up = up.utility();
    let u_flat = flat.utility();
    // same positive denominator: compare by cross-multiplication
    assert!(u_up.num * u_flat.den > u_flat.num * u_up.den);
}

#[test]
fn negative_return_raises_short_utility() {
    let mut bars: Vec<Bar> = Vec::new();
    bars.push(Bar { timestamp: 0, mid_price: 1000, point_is_finite: true });
    bars.push(Bar { timestamp: 1, mid_price: 1000, point_is_finite: true });
    for i in 2..30i64 {
        bars.push(Bar { timestamp: i, mid_price: 1000 - i, point_is_finite: true });
    }
    let dataset: DatasetRef = Arc::new(bars);
    let short = ModelType { side: ModelSide::Short, action: ModelAction::Opening };
    let down = direct_play(dataset.clone(), 0, 5, short);
    let flat = direct_play(dataset, 0, 1, short);
    let u_down = down.utility();
    let u_flat = flat.utility();
    assert!(u_down.num * u_flat.den > u_flat.num * u_down.den);
}
