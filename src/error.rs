use vstd::prelude::*;

verus! {

/// Why an evaluation was refused.
#[derive(Debug, Clone, Copy, PartialEq, Eq, Structural)]
pub enum EvalError {
    /// The basis holds as many entries as there are coefficients, or more.
    InvalidBasisLength,
}

} // verus!
