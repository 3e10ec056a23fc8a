use crate::bar::Bar;
use crate::order::Order;
use crate::position::Position;
use vstd::prelude::*;

verus! {

/// A trading policy driven by the backtester: once per bar it may emit at
/// most one order, after inspecting the bar (also named by its dataset
/// index) and the current positions.
pub trait Strategy: Sized {
    fn trade_decision(&mut self, bar_index: usize, bar: &Bar, positions: &Vec<Position>) -> Option<
        Order,
    >;
}

} // verus!
