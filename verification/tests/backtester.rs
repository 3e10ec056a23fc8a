use std::sync::Arc;
use cfr_proto::{
    closing_decision, opening_decision, Backtester, Bar, BasicStrategy, DatasetRef, InstrumentId,
    InstrumentSpec, Model, ModelError, ModelSet, Order, Position, PositionError, Ratio, Sample,
    Strategy, Utility,
};

fn id0() -> InstrumentId {
    InstrumentId { index: 0, symbol: "NQ".to_string() }
}

fn dataset() -> DatasetRef {
    let mut bars: Vec<Bar> = Vec::new();
    for i in 0..12i64 {
        bars.push(Bar { timestamp: i, mid_price: 1000 + 10 * i, point_is_finite: true });
    }
    Arc::new(bars)
}

/// Scripted policy: a fixed order per bar index.
struct ScriptedStrategy {
    script: Vec<Option<Order>>,
}

impl Strategy for ScriptedStrategy {
    fn trade_decision(
        &mut self,
        bar_index: usize,
        _bar: &Bar,
        _positions: &Vec<Position>,
    ) -> Option<Order> {
        if bar_index < self.script.len() {
            self.script[bar_index].clone()
        } else {
            None
        }
    }
}

#[test]
fn backtester_records_profit_at_flatten_events() {
    let spec = InstrumentSpec { multiplier: 20, fee: 15 };
    let positions = vec![Position::new(id0(), spec)];
    let script = vec![
        Some(Order { instrument_id: id0(), size: 1 }),
        None,
        Some(Order { instrument_id: id0(), size: -1 }),
        None,
    ];
    let mut backtester = Backtester::new(positions, dataset(), ScriptedStrategy { script });
    backtester.run().unwrap();
    let profits = backtester.realized_profits();
    assert_eq!(profits.len(), 1);
    // bought at 100.0 on bar 0, sold at 102.0 on bar 2:
    // 20 * (102 - 100) - 1.5 = 38.5, in tenths 385
    assert_eq!(profits[0].timestamp, 2);
    assert!(profits[0].profit.num == 385 * profits[0].profit.den);
    // volume: 1 * 1000 * 20 + 1 * 1020 * 20
    assert_eq!(backtester.traded_volume_usd(), Some(40400));
}

#[test]
fn unknown_instrument_stops_the_run() {
    let spec = InstrumentSpec { multiplier: 20, fee: 15 };
    let positions = vec![Position::new(id0(), spec)];
    let stray = InstrumentId { index: 7, symbol: "NQ".to_string() };
    let script = vec![Some(Order { instrument_id: stray, size: 1 })];
    let mut backtester = Backtester::new(positions, dataset(), ScriptedStrategy { script });
    assert_eq!(backtester.run(), Err(PositionError::UnknownInstrument));
}

#[test]
fn mismatched_symbol_stops_the_run() {
    let spec = InstrumentSpec { multiplier: 20, fee: 15 };
    let positions = vec![Position::new(id0(), spec)];
    let stray = InstrumentId { index: 0, symbol: "ES".to_string() };
    let script = vec![Some(Order { instrument_id: stray, size: 1 })];
    let mut backtester = Backtester::new(positions, dataset(), ScriptedStrategy { script });
    assert_eq!(backtester.run(), Err(PositionError::InstrumentMismatch));
}

/// Model whose prediction is scripted by variant index.
struct FixedModel {
    prediction: Utility,
}

impl Model for FixedModel {
    fn infer(&self, bar_indices: &Vec<usize>) -> Vec<Utility> {
        bar_indices.iter().map(|_| self.prediction).collect()
    }

    fn train(&self, _samples: &Vec<Sample>) {}

    fn save(&self, _path: &str) -> Result<(), ModelError> {
        Ok(())
    }

    fn load(&self, _path: &str) -> Result<(), ModelError> {
        Ok(())
    }

    fn loss(&self) -> Option<Ratio> {
        None
    }

    fn params(&self) -> String {
        String::new()
    }
}

#[test]
fn basic_strategy_opens_long_and_closes_on_unfavorable_prediction() {
    // opening long: 5, closing long: -1 (close at once), others negative
    let models = vec![
        FixedModel { prediction: Utility::Value(5) },
        FixedModel { prediction: Utility::Value(-1) },
        FixedModel { prediction: Utility::Value(-7) },
        FixedModel { prediction: Utility::Value(-7) },
    ];
    let model_set = Arc::new(ModelSet::new(1, "out".to_string(), models));
    let strategy: BasicStrategy<FixedModel> = BasicStrategy::new(model_set);
    let spec = InstrumentSpec { multiplier: 20, fee: 15 };
    let positions = vec![Position::new(id0(), spec)];
    let mut backtester = Backtester::new(positions, dataset(), strategy);
    backtester.run().unwrap();
    // Even bars see a flat book and buy one lot, filled the same bar; odd
    // bars see the long book, the closing model is unfavorable, and the
    // lot is sold one bar later. Each round trip over 12 bars realizes
    // 20 * (price + 1.0 - price) - 1.5 = 18.5, six times.
    let profits = backtester.realized_profits();
    assert_eq!(profits.len(), 6);
    for p in profits.iter() {
        assert!(p.profit.num == 185 * p.profit.den);
    }
    assert_eq!(profits[0].timestamp, 1);
    assert_eq!(profits[5].timestamp, 11);
    assert_eq!(backtester.positions[0].position(), 0);
}

#[test]
fn opening_decision_follows_the_two_predictions() {
    let id = id0();
    let long_wins = opening_decision(&id, Utility::Value(3), Utility::Value(2)).unwrap();
    assert_eq!(long_wins.size, 1);
    let short_wins = opening_decision(&id, Utility::Value(-1), Utility::Value(2)).unwrap();
    assert_eq!(short_wins.size, -1);
    assert!(opening_decision(&id, Utility::Value(-1), Utility::Value(0)).is_none());
    // not-a-number is never favorable
    assert!(opening_decision(&id, Utility::NotANumber, Utility::NotANumber).is_none());
    let nan_long = opening_decision(&id, Utility::NotANumber, Utility::Value(1)).unwrap();
    assert_eq!(nan_long.size, -1);
}

#[test]
fn closing_decision_closes_the_whole_position() {
    let id = id0();
    assert!(closing_decision(&id, 3, Utility::Value(1)).is_none());
    let close = closing_decision(&id, 3, Utility::Value(0)).unwrap();
    assert_eq!(close.size, -3);
    let close_short = closing_decision(&id, -2, Utility::NotANumber).unwrap();
    assert_eq!(close_short.size, 2);
}

#[test]
fn profit_rows_are_chronological() {
    let spec = InstrumentSpec { multiplier: 20, fee: 0 };
    let positions = vec![Position::new(id0(), spec)];
    // three round trips: flatten events on bars 1, 5 and 9
    let mut script: Vec<Option<Order>> = Vec::new();
    for i in 0..12 {
        let size = match i {
            0 | 4 | 8 => 1,
            1 | 5 | 9 => -1,
            _ => 0,
        };
        if size != 0 {
            script.push(Some(Order { instrument_id: id0(), size }));
        } else {
            script.push(None);
        }
    }
    let mut backtester = Backtester::new(positions, dataset(), ScriptedStrategy { script });
    backtester.run().unwrap();
    let profits = backtester.realized_profits();
    assert_eq!(profits.len(), 3);
    assert_eq!(profits[0].timestamp, 1);
    assert_eq!(profits[1].timestamp, 5);
    assert_eq!(profits[2].timestamp, 9);
    for w in profits.windows(2) {
        assert!(w[0].timestamp <= w[1].timestamp);
    }
}
