use std::cell::Cell;
use std::sync::Arc;
use cfr_proto::{
    Inference, Inferrer, Model, ModelAction, ModelError, ModelSet, ModelSide, ModelType, Ratio,
    Sample, Utility,
};

/// Test model that counts its batched calls and predicts a constant.
struct CountingModel {
    calls: Cell<usize>,
    points_seen: Cell<usize>,
    prediction: i64,
}

impl CountingModel {
    fn new(prediction: i64) -> CountingModel {
        CountingModel { calls: Cell::new(0), points_seen: Cell::new(0), prediction }
    }
}

impl Model for CountingModel {
    fn infer(&self, bar_indices: &Vec<usize>) -> Vec<Utility> {
        self.calls.set(self.calls.get() + 1);
        self.points_seen.set(self.points_seen.get() + bar_indices.len());
        bar_indices.iter().map(|_| Utility::Value(self.prediction)).collect()
    }

    fn train(&self, _samples: &Vec<Sample>) {}

    fn save(&self, _path: &str) -> Result<(), ModelError> {
        Ok(())
    }

    fn load(&self, _path: &str) -> Result<(), ModelError> {
        Ok(())
    }

    fn loss(&self) -> Option<Ratio> {
        None
    }

    fn params(&self) -> String {
        String::new()
    }
}

fn counting_set() -> Arc<ModelSet<CountingModel>> {
    let models = vec![
        CountingModel::new(1),
        CountingModel::new(2),
        CountingModel::new(3),
        CountingModel::new(4),
    ];
    Arc::new(ModelSet::new(0, "out".to_string(), models))
}

fn mt(index: usize) -> ModelType {
    ModelType::try_from(index).unwrap()
}

#[test]
fn fulfill_returns_one_inference_per_request() {
    let models = counting_set();
    let mut inferrer: Inferrer<CountingModel> = Inferrer::new(models.clone(), 16);
    // seven requests spread unevenly over three of the four variants
    inferrer.put_request(10, mt(0), 100);
    inferrer.put_request(11, mt(0), 101);
    inferrer.put_request(12, mt(2), 102);
    inferrer.put_request(13, mt(2), 103);
    inferrer.put_request(14, mt(2), 104);
    inferrer.put_request(15, mt(3), 105);
    inferrer.put_request(16, mt(3), 106);
    let result: Vec<Inference> = inferrer.fulfill_all_requests();
    assert_eq!(result.len(), 7);
    let mut seen: Vec<usize> = result.iter().map(|inf| inf.play_index).collect();
    seen.sort();
    assert_eq!(seen, vec![10, 11, 12, 13, 14, 15, 16]);
    // order kept within a variant, variants in dense order
    let in_order: Vec<usize> = result.iter().map(|inf| inf.play_index).collect();
    assert_eq!(in_order, vec![10, 11, 12, 13, 14, 15, 16]);
    // exactly one model call per non-empty buffer, none for the empty one
    assert_eq!(models.model(mt(0)).calls.get(), 1);
    assert_eq!(models.model(mt(1)).calls.get(), 0);
    assert_eq!(models.model(mt(2)).calls.get(), 1);
    assert_eq!(models.model(mt(3)).calls.get(), 1);
    assert_eq!(models.model(mt(0)).points_seen.get(), 2);
    assert_eq!(models.model(mt(2)).points_seen.get(), 3);
    assert_eq!(models.model(mt(3)).points_seen.get(), 2);
    // predictions come from the buffer's own model
    assert_eq!(result[0].prediction, Utility::Value(1));
    assert_eq!(result[2].prediction, Utility::Value(3));
    assert_eq!(result[5].prediction, Utility::Value(4));
    // buffers are empty afterwards: a second round asks nothing
    let empty = inferrer.fulfill_all_requests();
    assert_eq!(empty.len(), 0);
    assert_eq!(models.model(mt(0)).calls.get(), 1);
}

#[test]
fn clear_drops_pending_requests() {
    let models = counting_set();
    let mut inferrer: Inferrer<CountingModel> = Inferrer::new(models.clone(), 4);
    inferrer.put_request(0, mt(1), 7);
    inferrer.clear();
    let result = inferrer.fulfill_all_requests();
    assert_eq!(result.len(), 0);
    assert_eq!(models.model(mt(1)).calls.get(), 0);
}

#[test]
fn synchronous_path_asks_one_model_once() {
    let models = counting_set();
    let inferrer: Inferrer<CountingModel> = Inferrer::new(models.clone(), 4);
    let u = inferrer.infer(mt(1), 42);
    assert_eq!(u, Utility::Value(2));
    assert_eq!(models.model(mt(1)).calls.get(), 1);
    assert_eq!(models.model(mt(1)).points_seen.get(), 1);
    assert_eq!(models.model(mt(0)).calls.get(), 0);
}
