use vstd::prelude::*;

use crate::params::ParamName;

verus! {

/// The errors that constructing a law or integrating it can report.
#[derive(Clone, Copy, Debug, PartialEq, Eq)]
pub enum ModelError {
    /// A parameter that the selected law needs is absent.
    MissingParameter(ParamName),
    /// The local Newton iteration of a backward-Euler update used up its
    /// correction budget without meeting the residual tolerance.
    NotConverged,
    /// The reference integrator failed; its message is passed on unchanged.
    Solver(&'static str),
}

impl ModelError {
    /// The short, stable description of the error.
    pub open spec fn spec_message(self) -> Seq<char> {
        match self {
            ModelError::MissingParameter(p) => p.spec_missing_message(),
            ModelError::NotConverged => "Backward Euler did not converge"@,
            ModelError::Solver(m) => m@,
        }
    }

    pub fn message(&self) -> (r: &'static str)
        ensures
            r@ == self.spec_message(),
    {
        match self {
            ModelError::MissingParameter(p) => p.missing_message(),
            ModelError::NotConverged => "Backward Euler did not converge",
            ModelError::Solver(m) => m,
        }
    }
}

} // verus!
