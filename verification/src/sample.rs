use crate::ratio::Ratio;
use vstd::prelude::*;

verus! {

/// One labeled training example: the bar where the episode started,
/// identified by its index into the shared dataset (its feature point is
/// the model input), and the exact utility the episode realized.
#[derive(Debug, Clone, Copy, PartialEq, Eq, Structural)]
pub struct Sample {
    pub bar_index: usize,
    pub utility: Ratio,
}

} // verus!
