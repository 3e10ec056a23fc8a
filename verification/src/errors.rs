use vstd::prelude::*;

verus! {

/// Error returned when a dense model index does not name one of the four
/// model variants.
#[derive(Debug, Clone, Copy, PartialEq, Eq, Structural)]
pub enum ModelTypeError {
    IndexOutOfBounds,
}

/// Errors of a model capability implementation.
#[derive(Debug, Clone, Copy, PartialEq, Eq, Structural)]
pub enum ModelError {
    /// The parameter file is missing; fatal outside the baseline iteration.
    Missing,
    /// Reading or writing the parameter file failed.
    Io,
    /// The parameter file's content could not be understood.
    InvalidParams,
}

/// Errors of the position-accounting engine.
#[derive(Debug, Clone, Copy, PartialEq, Eq, Structural)]
pub enum PositionError {
    /// An order was submitted to a position of a different instrument.
    InstrumentMismatch,
    /// An order named an instrument index with no position.
    UnknownInstrument,
    /// The exact rational bookkeeping left the fixed-width range.
    Overflow,
}

} // verus!
