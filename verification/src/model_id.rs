use crate::model_type::ModelType;
use vstd::prelude::*;

verus! {

/// Identity of one persisted model: which iteration produced it and which
/// variant it is.
#[derive(Debug, Clone, Copy, PartialEq, Eq, Hash, Structural)]
pub struct ModelId {
    pub iteration: usize,
    pub model_type: ModelType,
}

} // verus!
