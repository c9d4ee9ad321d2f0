use vstd::prelude::*;

verus! {

/// Why an evaluation did not produce a value.
#[derive(Debug, PartialEq, Eq)]
pub enum EvalError {
    /// A variable was read that the environment does not bind.
    UnboundVariable(String),
    /// A bounded command evaluation ran out of loop iterations.
    OutOfFuel,
}

} // verus!
