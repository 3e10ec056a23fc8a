use vstd::prelude::*;

verus! {

/// Highest mid price the engine accepts, in the caller's fixed-point price
/// unit. Keeping prices in this range leaves enough headroom for the exact
/// basis-point arithmetic in `Play::utility` to stay inside `i128`.
pub const MAX_PRICE: i64 = 1_000_000_000_000;

/// One timestamped market observation.
///
/// `mid_price` is a fixed-point integer in a unit chosen by the caller (the
/// same unit as fees). The feature vector attached to the bar is consumed
/// only by the opaque model capability, so the engine keeps just the one
/// fact it decides on: whether all features are finite. Bars whose features
/// are not finite stand for missing data and are skipped by simulations.
#[derive(Debug, Clone, Copy, PartialEq, Eq, Structural)]
pub struct Bar {
    pub timestamp: i64,
    pub mid_price: i64,
    pub point_is_finite: bool,
}

/// A dataset is an immutable, shared, index-addressable sequence of bars.
pub type DatasetRef = std::sync::Arc<Vec<Bar>>;

/// Every bar's price is positive and within the engine's headroom bound.
pub open spec fn dataset_prices_wf(bars: Seq<Bar>) -> bool {
    forall|i: int|
        0 <= i < bars.len() ==> 1 <= #[trigger] bars[i].mid_price <= MAX_PRICE
}

/// Every bar's feature point is finite (no missing data anywhere).
pub open spec fn dataset_all_finite(bars: Seq<Bar>) -> bool {
    forall|i: int| 0 <= i < bars.len() ==> #[trigger] bars[i].point_is_finite
}

} // verus!
