use crate::ratio::Ratio;
use vstd::prelude::*;

verus! {

/// One realized (partial or full) close event: the bar's timestamp and the
/// exact realized amount.
#[derive(Debug, Clone, Copy, PartialEq, Eq, Structural)]
pub struct Profit {
    pub timestamp: i64,
    pub profit: Ratio,
}

} // verus!
