use vstd::prelude::*;

verus! {

/// The configuration field whose absence made a build fail.
#[derive(Clone, Copy, Debug, PartialEq, Eq, Structural)]
pub enum ConfigField {
    Npts,
    BoltzmannConstant,
    Temperature,
    Density,
    Grid,
    Data,
    Potential,
    Closure,
    IntegralEquation,
    Plan,
}

/// Every failure the library reports.
#[derive(Clone, Copy, Debug, PartialEq, Eq, Structural)]
pub enum OzError {
    /// The grid was asked for zero points or a non-positive radius, or a
    /// grid whose point sequences do not match its point count was handed in.
    InvalidGrid,
    /// The spectral plan is sized for a different point count than the grid.
    PlanConstructionFailed { expected: usize, found: usize },
    /// A builder was finalised with the named field still unset.
    IncompleteConfiguration { missing: ConfigField },
    /// A strategy was handed an empty sequence.
    EmptyInput,
    /// Two sequences that must share the grid's length do not.
    LengthMismatch { expected: usize, found: usize },
    /// An operation was called in a solver state that does not admit it.
    InvalidPhase,
    /// A non-finite value appeared in an iterate.
    NumericalDivergence,
}

} // verus!
