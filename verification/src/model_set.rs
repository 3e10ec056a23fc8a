use crate::errors::ModelError;
use crate::model::Model;
use crate::model_type::{ModelAction, ModelType, N_MODEL_TYPES};
use crate::paths::model_path;
use vstd::prelude::*;

verus! {

/// The four model variants of one iteration, stored in dense-index order,
/// together with where their parameters persist.
#[verifier::reject_recursive_types(M)]
pub struct ModelSet<M: Model> {
    pub iteration_index: usize,
    pub output_dir: String,
    pub models: Vec<M>,
}

impl<M: Model> ModelSet<M> {
    /// One model per variant, in dense-index order.
    pub open spec fn wf(self) -> bool {
        self.models@.len() == N_MODEL_TYPES
    }

    /// Assemble the set for one iteration. The caller constructs the four
    /// models (the baseline for iteration zero, learning models after
    /// that) in dense-index order.
    pub fn new(iteration_index: usize, output_dir: String, models: Vec<M>) -> (r: ModelSet<M>)
        requires
            models@.len() == N_MODEL_TYPES,
        ensures
            r.wf(),
            r.iteration_index == iteration_index,
            r.output_dir == output_dir,
            r.models == models,
    {
        ModelSet { iteration_index, output_dir, models }
    }

    /// The model of one variant.
    pub fn model(&self, model_type: ModelType) -> (r: &M)
        requires
            self.wf(),
        ensures
            r == &self.models@[model_type.as_index()],
    {
        let i: usize = model_type.index();
        &self.models[i]
    }

    pub fn len(&self) -> (r: usize)
        ensures
            r == self.models@.len(),
    {
        self.models.len()
    }

    /// Load every variant's parameters from this iteration's paths,
    /// stopping at the first failure. What loading does to a model is the
    /// implementation's affair; the baseline accepts anything.
    pub fn load_model_params(&self) -> (r: Result<(), ModelError>)
        requires
            self.wf(),
    {
        let all: Vec<ModelType> = ModelType::all();
        let mut k: usize = 0;
        while k < all.len()
            invariant
                self.wf(),
                all@.len() == N_MODEL_TYPES,
                forall|i: int| 0 <= i < all@.len() ==> (#[trigger] all@[i]).as_index() == i,
            decreases all@.len() - k,
        {
            let mt: ModelType = all[k];
            let path: String = model_path(self.output_dir.as_str(), self.iteration_index, mt);
            let i: usize = mt.index();
            match self.models[i].load(path.as_str()) {
                Ok(()) => {
                },
                Err(e) => { return Err(e) },
            }
            k = k + 1;
        }
        Ok(())
    }

    /// Load parameters with each closing model taken from the previous
    /// iteration's output, as the live trading strategy consumes them.
    pub fn load_model_params_with_close_from_previous_iteration(&self) -> (r: Result<
        (),
        ModelError,
    >)
        requires
            self.wf(),
            self.iteration_index >= 1,
    {
        let all: Vec<ModelType> = ModelType::all();
        let mut k: usize = 0;
        while k < all.len()
            invariant
                self.wf(),
                self.iteration_index >= 1,
                all@.len() == N_MODEL_TYPES,
                forall|i: int| 0 <= i < all@.len() ==> (#[trigger] all@[i]).as_index() == i,
            decreases all@.len() - k,
        {
            let mt: ModelType = all[k];
            let load_iteration: usize = match mt.action {
                ModelAction::Opening => self.iteration_index,
                ModelAction::Closing => self.iteration_index - 1,
            };
            let path: String = model_path(self.output_dir.as_str(), load_iteration, mt);
            let i: usize = mt.index();
            match self.models[i].load(path.as_str()) {
                Ok(()) => {
                },
                Err(e) => { return Err(e) },
            }
            k = k + 1;
        }
        Ok(())
    }
}

} // verus!
