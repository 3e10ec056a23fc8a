use crate::errors::ModelError;
use crate::model::Model;
use crate::ratio::Ratio;
use crate::sample::Sample;
use crate::utility::Utility;
use vstd::prelude::*;

verus! {

/// Non-learning baseline policy: every prediction is a coin flip between
/// utility `+1` and `-1`. It cannot train, has no loss, and persists
/// nothing.
#[derive(Debug, Clone, Copy, PartialEq, Eq, Structural)]
pub struct RandomModel {}

impl Model for RandomModel {
    fn infer(&self, bar_indices: &Vec<usize>) -> (r: Vec<Utility>)
        ensures
            r@.len() == bar_indices@.len(),
    {
        let mut r: Vec<Utility> = Vec::new();
        let n: usize = bar_indices.len();
        let mut i: usize = 0;
        while i < n
            invariant
                i <= n,
                r@.len() == i,
            decreases n - i,
        {
            if crate::rng::random_bool() {
                r.push(Utility::Value(1));
            } else {
                r.push(Utility::Value(-1));
            }
            i = i + 1;
        }
        r
    }

    fn train(&self, samples: &Vec<Sample>) {
    }

    fn save(&self, path: &str) -> Result<(), ModelError> {
        Ok(())
    }

    fn load(&self, path: &str) -> Result<(), ModelError> {
        Ok(())
    }

    fn loss(&self) -> Option<Ratio> {
        None
    }

    fn params(&self) -> String {
        String::new()
    }
}

} // verus!
