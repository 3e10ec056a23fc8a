use crate::errors::ModelError;
use crate::ratio::Ratio;
use crate::sample::Sample;
use crate::utility::Utility;
use vstd::prelude::*;

verus! {

/// The opaque prediction capability behind the engine: each of the four
/// model variants implements it. The baseline lives in this crate; learning
/// implementations are supplied by the surrounding binary.
///
/// Queries name bars by index into the shared dataset; an implementation
/// looks the feature points up itself.
pub trait Model: Sized {
    /// Predicted utility of the non-trivial action, one per queried bar.
    fn infer(&self, bar_indices: &Vec<usize>) -> (r: Vec<Utility>)
        ensures
            r@.len() == bar_indices@.len(),
    ;

    /// Fit the model to labeled samples; a non-learning model ignores them.
    fn train(&self, samples: &Vec<Sample>);

    /// Persist the model's parameters to a path.
    fn save(&self, path: &str) -> Result<(), ModelError>;

    /// Load the model's parameters from a path.
    fn load(&self, path: &str) -> Result<(), ModelError>;

    /// Last training loss, if the model has one.
    fn loss(&self) -> Option<Ratio>;

    /// Serialized form of the parameters, for diagnostics.
    fn params(&self) -> String;
}

} // verus!
