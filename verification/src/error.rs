//! The ways in which a run can be refused.

use vstd::prelude::*;

verus! {

/// Why an integration run or a comparison was refused.
#[derive(Clone, Copy, Debug, PartialEq, Eq, Structural)]
pub enum OdeError {
    /// The step size is zero.
    ZeroStep,
    /// The multistep method was asked for fewer than three steps.
    TooFewSteps,
    /// Two trajectories of different lengths were compared.
    LengthMismatch,
}

} // verus!
