use vstd::prelude::*;

verus! {

/// Identity of a tradable instrument: a dense index used to address its
/// position, plus a human-readable symbol.
#[derive(Debug, Clone)]
pub struct InstrumentId {
    pub index: usize,
    pub symbol: String,
}

/// Two instrument identities name the same instrument.
pub open spec fn instrument_id_eq(a: InstrumentId, b: InstrumentId) -> bool {
    a.index == b.index && a.symbol@ == b.symbol@
}

impl InstrumentId {
    /// Runtime check matching `instrument_id_eq`.
    pub fn matches(&self, other: &InstrumentId) -> (r: bool)
        ensures
            r == instrument_id_eq(*self, *other),
    {
        self.index == other.index && self.symbol == other.symbol
    }
}

impl InstrumentId {
    /// An equal copy; unlike a derived clone, the copy's fields are known.
    pub fn duplicate(&self) -> (r: InstrumentId)
        ensures
            r == *self,
            instrument_id_eq(r, *self),
    {
        InstrumentId { index: self.index, symbol: self.symbol.clone() }
    }
}

/// Economic parameters of an instrument: contract multiplier and fee per
/// lot, both fixed-point integers in the caller's monetary unit.
#[derive(Debug, Clone, Copy, PartialEq, Eq, Structural)]
pub struct InstrumentSpec {
    pub multiplier: i64,
    pub fee: i64,
}

} // verus!
