use std::sync::Arc;
use cfr_proto::{
    empty_sample_buffers, merge_samples, model_path, run_plays, run_plays_sequentially, Bar,
    DatasetRef, Iteration, IterationConfig, IterationStat, ModelAction, ModelSet, ModelSide,
    ModelType, RandomModel, Ratio, Sample, Utility,
};

fn config(n_plays: u64) -> IterationConfig {
    IterationConfig {
        n_plays,
        concurrency: 1,
        output_dir: "out".to_string(),
        fee_per_contract_usd: 15,
        multiplier: 20,
        utility_penalty_bps: 5,
        max_play_duration_in_bars: 8,
    }
}

fn finite_dataset(n: usize) -> DatasetRef {
    let mut bars: Vec<Bar> = Vec::new();
    for i in 0..n {
        bars.push(Bar { timestamp: i as i64, mid_price: 1000 + i as i64, point_is_finite: true });
    }
    Arc::new(bars)
}

fn random_set() -> Arc<ModelSet<RandomModel>> {
    let models = vec![RandomModel {}, RandomModel {}, RandomModel {}, RandomModel {}];
    Arc::new(ModelSet::new(0, "out".to_string(), models))
}

#[test]
fn sequential_run_stops_exactly_at_the_target() {
    let dataset = finite_dataset(64);
    let models = random_set();
    let mut stat = IterationStat::new();
    let samples = run_plays_sequentially(&config(7), &dataset, &models, 7, &mut stat);
    assert_eq!(stat.n_plays(), 7);
    assert_eq!(samples.len(), 4);
    let total: usize = samples.iter().map(|s| s.len()).sum();
    // every bar is finite, so every play yields exactly one sample
    assert_eq!(total, 7);
}

#[test]
fn sequential_run_with_reached_gate_does_nothing() {
    let dataset = finite_dataset(64);
    let models = random_set();
    let mut stat = IterationStat::new();
    stat.n_plays = 9;
    let samples = run_plays_sequentially(&config(7), &dataset, &models, 7, &mut stat);
    assert_eq!(stat.n_plays(), 9);
    let total: usize = samples.iter().map(|s| s.len()).sum();
    assert_eq!(total, 0);
}

#[test]
fn batched_run_yields_one_sample_per_play() {
    let dataset = finite_dataset(64);
    let models = random_set();
    let mut stat = IterationStat::new();
    let samples = run_plays(&config(3), &dataset, &models, 3, &mut stat);
    assert_eq!(samples.len(), 4);
    let total: usize = samples.iter().map(|s| s.len()).sum();
    // one cohort is three plays for each of the four variants
    assert_eq!(total, 12);
    assert_eq!(stat.n_plays(), 12);
    // samples land in their trained variant's buffer: three per variant
    for buffer in samples.iter() {
        assert_eq!(buffer.len(), 3);
    }
}

#[test]
fn merge_adds_counts_per_variant() {
    let mut into = empty_sample_buffers();
    let mut from = empty_sample_buffers();
    into[1].push(Sample { bar_index: 0, utility: Ratio { num: 1, den: 1 } });
    from[1].push(Sample { bar_index: 2, utility: Ratio { num: 3, den: 2 } });
    from[3].push(Sample { bar_index: 5, utility: Ratio { num: -1, den: 4 } });
    merge_samples(&mut into, &mut from);
    assert_eq!(into[0].len(), 0);
    assert_eq!(into[1].len(), 2);
    assert_eq!(into[3].len(), 1);
    assert_eq!(into[1][0].bar_index, 0);
    assert_eq!(into[1][1].bar_index, 2);
    assert_eq!(into[3][0].utility, Ratio { num: -1, den: 4 });
}

#[test]
fn iteration_runs_to_its_target_and_saves() {
    let dataset = finite_dataset(64);
    let mut iteration: Iteration<RandomModel> =
        Iteration::new(0, dataset, config(5), random_set(), random_set());
    let r = iteration.run();
    assert!(r.is_ok());
    assert_eq!(iteration.stat.n_plays(), 5);
    // one sample per completed play on all-valid data, bucketed by variant
    let total_samples: usize = iteration.sample_counts.iter().sum();
    assert_eq!(total_samples, 5);
    let summary = iteration.summary();
    assert!(summary.starts_with("mean play length: "));
    assert!(summary.contains("mean prediction: "));
    assert!(summary.contains("opening_long: "));
    assert!(summary.contains("closing_short: "));
}

#[test]
fn model_paths_are_keyed_by_iteration_and_variant() {
    let mt = ModelType { side: ModelSide::Short, action: ModelAction::Opening };
    assert_eq!(model_path("out", 3, mt), "out/3_opening_short.json");
    let mt2 = ModelType { side: ModelSide::Long, action: ModelAction::Closing };
    assert_eq!(model_path("/tmp/models", 210, mt2), "/tmp/models/210_closing_long.json");
}

#[test]
fn stat_counters_saturate_instead_of_wrapping() {
    let mut stat = IterationStat::new();
    stat.play_length_sum = usize::MAX - 2;
    stat.update_play_lengths(5);
    assert_eq!(stat.play_length_sum, usize::MAX);
    assert_eq!(stat.n_plays, 1);
    stat.prediction_sum = i64::MIN + 1;
    stat.update_predictions(Utility::Value(-5));
    assert_eq!(stat.prediction_sum, i64::MIN);
    assert_eq!(stat.n_predictions, 1);
}

#[test]
fn stat_means_are_exact_ratios() {
    let mut stat = IterationStat::new();
    assert_eq!(stat.mean_play_length(), Ratio { num: 0, den: 1 });
    stat.update_play_lengths(3);
    stat.update_play_lengths(4);
    assert_eq!(stat.mean_play_length(), Ratio { num: 7, den: 2 });
    stat.update_predictions(Utility::Value(10));
    stat.update_predictions(Utility::NotANumber);
    stat.update_predictions(Utility::Value(-4));
    assert_eq!(stat.mean_prediction(), Ratio { num: 6, den: 3 });
}

/// Test model that records which paths it was asked to load.
struct RecordingModel {
    loaded: std::cell::RefCell<Vec<String>>,
    fail_with: Option<cfr_proto::ModelError>,
}

impl RecordingModel {
    fn new(fail_with: Option<cfr_proto::ModelError>) -> RecordingModel {
        RecordingModel { loaded: std::cell::RefCell::new(Vec::new()), fail_with }
    }
}

impl cfr_proto::Model for RecordingModel {
    fn infer(&self, bar_indices: &Vec<usize>) -> Vec<Utility> {
        bar_indices.iter().map(|_| Utility::Value(1)).collect()
    }

    fn train(&self, _samples: &Vec<Sample>) {}

    fn save(&self, _path: &str) -> Result<(), cfr_proto::ModelError> {
        Ok(())
    }

    fn load(&self, path: &str) -> Result<(), cfr_proto::ModelError> {
        self.loaded.borrow_mut().push(path.to_string());
        match self.fail_with {
            None => Ok(()),
            Some(e) => Err(e),
        }
    }

    fn loss(&self) -> Option<Ratio> {
        None
    }

    fn params(&self) -> String {
        String::new()
    }
}

#[test]
fn load_uses_this_iterations_paths() {
    let models = vec![
        RecordingModel::new(None),
        RecordingModel::new(None),
        RecordingModel::new(None),
        RecordingModel::new(None),
    ];
    let set = ModelSet::new(2, "io".to_string(), models);
    set.load_model_params().unwrap();
    assert_eq!(set.model(ModelType::try_from(0).unwrap()).loaded.borrow()[0], "io/2_opening_long.json");
    assert_eq!(set.model(ModelType::try_from(1).unwrap()).loaded.borrow()[0], "io/2_closing_long.json");
    assert_eq!(set.model(ModelType::try_from(2).unwrap()).loaded.borrow()[0], "io/2_opening_short.json");
    assert_eq!(set.model(ModelType::try_from(3).unwrap()).loaded.borrow()[0], "io/2_closing_short.json");
}

#[test]
fn load_takes_closing_models_from_the_previous_iteration() {
    let models = vec![
        RecordingModel::new(None),
        RecordingModel::new(None),
        RecordingModel::new(None),
        RecordingModel::new(None),
    ];
    let set = ModelSet::new(3, "io".to_string(), models);
    set.load_model_params_with_close_from_previous_iteration().unwrap();
    assert_eq!(set.model(ModelType::try_from(0).unwrap()).loaded.borrow()[0], "io/3_opening_long.json");
    assert_eq!(set.model(ModelType::try_from(1).unwrap()).loaded.borrow()[0], "io/2_closing_long.json");
    assert_eq!(set.model(ModelType::try_from(2).unwrap()).loaded.borrow()[0], "io/3_opening_short.json");
    assert_eq!(set.model(ModelType::try_from(3).unwrap()).loaded.borrow()[0], "io/2_closing_short.json");
}

#[test]
fn load_stops_at_the_first_failure() {
    let models = vec![
        RecordingModel::new(None),
        RecordingModel::new(Some(cfr_proto::ModelError::Missing)),
        RecordingModel::new(None),
        RecordingModel::new(None),
    ];
    let set = ModelSet::new(1, "io".to_string(), models);
    assert_eq!(set.load_model_params(), Err(cfr_proto::ModelError::Missing));
    // the failing variant was reached, the ones after it were not
    assert_eq!(set.model(ModelType::try_from(1).unwrap()).loaded.borrow().len(), 1);
    assert_eq!(set.model(ModelType::try_from(2).unwrap()).loaded.borrow().len(), 0);
}
