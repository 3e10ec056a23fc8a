use crate::errors::ModelTypeError;
use vstd::prelude::*;

verus! {

/// Number of (side, action) model variants.
pub const N_MODEL_TYPES: usize = 4;

/// Which way a model's trades point.
#[derive(Debug, Clone, Copy, PartialEq, Eq, Hash, Structural)]
pub enum ModelSide {
    Long,
    Short,
}

/// Whether a model decides on opening or on closing an episode.
#[derive(Debug, Clone, Copy, PartialEq, Eq, Hash, Structural)]
pub enum ModelAction {
    Opening,
    Closing,
}

/// One of the four (side, action) decision-model variants.
#[derive(Debug, Clone, Copy, PartialEq, Eq, Hash, Structural)]
pub struct ModelType {
    pub side: ModelSide,
    pub action: ModelAction,
}

impl ModelType {
    /// Dense index of this variant: side major, action minor.
    pub open spec fn as_index(self) -> int {
        let s: int = match self.side {
            ModelSide::Long => 0,
            ModelSide::Short => 1,
        };
        let a: int = match self.action {
            ModelAction::Opening => 0,
            ModelAction::Closing => 1,
        };
        s * 2 + a
    }

    /// Dense index in `0..4`, the inverse of `try_from`.
    pub fn index(self) -> (i: usize)
        ensures
            i == self.as_index(),
            i < N_MODEL_TYPES,
    {
        let s: usize = match self.side {
            ModelSide::Long => 0,
            ModelSide::Short => 1,
        };
        let a: usize = match self.action {
            ModelAction::Opening => 0,
            ModelAction::Closing => 1,
        };
        s * 2 + a
    }

    /// Bounds-checked mapping from a dense index to a variant.
    pub fn try_from(value: usize) -> (r: Result<ModelType, ModelTypeError>)
        ensures
            value < N_MODEL_TYPES <==> r is Ok,
            r matches Ok(mt) ==> mt.as_index() == value,
    {
        match value {
            0 => Ok(ModelType { side: ModelSide::Long, action: ModelAction::Opening }),
            1 => Ok(ModelType { side: ModelSide::Long, action: ModelAction::Closing }),
            2 => Ok(ModelType { side: ModelSide::Short, action: ModelAction::Opening }),
            3 => Ok(ModelType { side: ModelSide::Short, action: ModelAction::Closing }),
            _ => Err(ModelTypeError::IndexOutOfBounds),
        }
    }

    /// All four variants in dense-index order.
    pub fn all() -> (r: Vec<ModelType>)
        ensures
            r@.len() == N_MODEL_TYPES,
            forall|i: int| 0 <= i < r@.len() ==> #[trigger] r@[i].as_index() == i,
    {
        let mut r: Vec<ModelType> = Vec::new();
        r.push(ModelType { side: ModelSide::Long, action: ModelAction::Opening });
        r.push(ModelType { side: ModelSide::Long, action: ModelAction::Closing });
        r.push(ModelType { side: ModelSide::Short, action: ModelAction::Opening });
        r.push(ModelType { side: ModelSide::Short, action: ModelAction::Closing });
        r
    }

    /// The variant that decides when to stop a play trained for this side.
    pub fn closing(self) -> (r: ModelType)
        ensures
            r.side == self.side,
            r.action == ModelAction::Closing,
    {
        ModelType { side: self.side, action: ModelAction::Closing }
    }

    /// Name used in persistence paths, `<action>_<side>` in lower case.
    pub open spec fn spec_label(self) -> Seq<char> {
        match (self.action, self.side) {
            (ModelAction::Opening, ModelSide::Long) => "opening_long"@,
            (ModelAction::Opening, ModelSide::Short) => "opening_short"@,
            (ModelAction::Closing, ModelSide::Long) => "closing_long"@,
            (ModelAction::Closing, ModelSide::Short) => "closing_short"@,
        }
    }

    /// Name used in persistence paths, `<action>_<side>` in lower case.
    pub fn label(self) -> (r: &'static str)
        ensures
            r@ == self.spec_label(),
    {
        match (self.action, self.side) {
            (ModelAction::Opening, ModelSide::Long) => "opening_long",
            (ModelAction::Opening, ModelSide::Short) => "opening_short",
            (ModelAction::Closing, ModelSide::Long) => "closing_long",
            (ModelAction::Closing, ModelSide::Short) => "closing_short",
        }
    }
}

} // verus!
