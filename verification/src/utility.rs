use vstd::prelude::*;

verus! {

/// A model's predicted utility of the non-trivial action: a number in the
/// caller's fixed-point unit, or not-a-number (a numerical anomaly of the
/// opaque model capability).
#[derive(Debug, Clone, Copy, PartialEq, Eq, Structural)]
pub enum Utility {
    NotANumber,
    Value(i64),
}

} // verus!
