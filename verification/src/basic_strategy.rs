use crate::bar::Bar;
use crate::instrument::InstrumentId;
use crate::model::Model;
use crate::model_set::ModelSet;
use crate::model_type::{ModelAction, ModelSide, ModelType, N_MODEL_TYPES};
use crate::order::Order;
use crate::position::Position;
use crate::strategy::Strategy;
use crate::utility::Utility;
use std::sync::Arc;
use vstd::prelude::*;

verus! {

/// The prediction is a number strictly above zero; not-a-number is never
/// above zero, mirroring floating-point comparison semantics.
pub open spec fn util_gt_zero(u: Utility) -> bool {
    u matches Utility::Value(v) && v > 0
}

/// The first prediction is a number at least as large as the second;
/// false whenever either is not a number.
pub open spec fn util_ge(a: Utility, b: Utility) -> bool {
    a matches Utility::Value(x) && b matches Utility::Value(y) && x >= y
}

/// What a flat book does with the two opening models' predictions: go long
/// one lot when long looks favorable and no worse than short, else short
/// one lot when short looks favorable, else stay out.
pub open spec fn opening_decision_spec(id: InstrumentId, long_u: Utility, short_u: Utility) -> Option<Order> {
    if util_gt_zero(long_u) && util_ge(long_u, short_u) {
        Some(Order { instrument_id: id, size: 1 })
    } else if util_gt_zero(short_u) {
        Some(Order { instrument_id: id, size: -1i32 })
    } else {
        None
    }
}

/// What an open book does with its closing model's prediction: hold while
/// doing nothing looks favorable, else close the whole position.
pub open spec fn closing_decision_spec(id: InstrumentId, position: int, utility: Utility) -> Option<Order> {
    if util_gt_zero(utility) {
        None
    } else {
        Some(Order { instrument_id: id, size: (-position) as i32 })
    }
}

/// Decide an order for a flat book from the two opening models'
/// predictions.
pub fn opening_decision(instrument_id: &InstrumentId, long_u: Utility, short_u: Utility) -> (r:
    Option<Order>)
    ensures
        r == opening_decision_spec(*instrument_id, long_u, short_u),
{
    let long_favorable: bool = match long_u {
        Utility::Value(v) => v > 0,
        Utility::NotANumber => false,
    };
    let long_at_least_short: bool = match (long_u, short_u) {
        (Utility::Value(x), Utility::Value(y)) => x >= y,
        _ => false,
    };
    let short_favorable: bool = match short_u {
        Utility::Value(v) => v > 0,
        Utility::NotANumber => false,
    };
    if long_favorable && long_at_least_short {
        Some(Order { instrument_id: instrument_id.duplicate(), size: 1 })
    } else if short_favorable {
        Some(Order { instrument_id: instrument_id.duplicate(), size: -1 })
    } else {
        None
    }
}

/// Decide an order for an open book from its closing model's prediction.
pub fn closing_decision(instrument_id: &InstrumentId, position: i32, utility: Utility) -> (r:
    Option<Order>)
    requires
        position != i32::MIN,
    ensures
        r == closing_decision_spec(*instrument_id, position as int, utility),
{
    let favorable: bool = match utility {
        Utility::Value(v) => v > 0,
        Utility::NotANumber => false,
    };
    if favorable {
        None
    } else {
        Some(Order { instrument_id: instrument_id.duplicate(), size: -position })
    }
}

/// Model-driven policy over a single instrument: when flat it consults the
/// two opening models; when positioned, the closing model of the held
/// side.
#[verifier::reject_recursive_types(M)]
pub struct BasicStrategy<M: Model> {
    pub model_set: Arc<ModelSet<M>>,
}

impl<M: Model> BasicStrategy<M> {
    pub fn new(model_set: Arc<ModelSet<M>>) -> (r: BasicStrategy<M>)
        ensures
            r.model_set == model_set,
    {
        BasicStrategy { model_set }
    }

    /// One prediction from one model variant for one bar.
    fn infer_one(&self, model_type: ModelType, bar_index: usize) -> (r: Utility)
        requires
            self.model_set.wf(),
    {
        let model: &M = self.model_set.model(model_type);
        let mut query: Vec<usize> = Vec::new();
        query.push(bar_index);
        let predictions: Vec<Utility> = model.infer(&query);
        predictions[0]
    }
}

impl<M: Model> Strategy for BasicStrategy<M> {
    /// The decision for this bar; `opening_decision_spec` and
    /// `closing_decision_spec` say exactly what is made of the models'
    /// predictions. Returns no order when the book is missing or malformed
    /// instead of failing.
    fn trade_decision(&mut self, bar_index: usize, bar: &Bar, positions: &Vec<Position>) -> Option<
        Order,
    > {
        if positions.len() == 0 {
            return None;
        }
        if self.model_set.len() != N_MODEL_TYPES {
            return None;
        }
        let position: i32 = positions[0].position();
        let instrument_id: &InstrumentId = positions[0].instrument_id();
        if position == 0 {
            let open_long: Utility = self.infer_one(
                ModelType { side: ModelSide::Long, action: ModelAction::Opening },
                bar_index,
            );
            let open_short: Utility = self.infer_one(
                ModelType { side: ModelSide::Short, action: ModelAction::Opening },
                bar_index,
            );
            opening_decision(instrument_id, open_long, open_short)
        } else {
            if position == i32::MIN {
                return None;
            }
            let side: ModelSide = if position > 0 {
                ModelSide::Long
            } else {
                ModelSide::Short
            };
            let utility: Utility = self.infer_one(
                ModelType { side, action: ModelAction::Closing },
                bar_index,
            );
            closing_decision(instrument_id, position, utility)
        }
    }
}

} // verus!
