use crate::instrument::InstrumentId;
use vstd::prelude::*;

verus! {

/// A request to trade: positive `size` buys, negative sells, the magnitude
/// is the lot count.
#[derive(Debug, Clone)]
pub struct Order {
    pub instrument_id: InstrumentId,
    pub size: i32,
}

} // verus!
