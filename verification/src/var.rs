//! Domain values.

use crate::scalar::Scalar;
use vstd::prelude::*;

verus! {

/// A range of values.
pub struct Range {}

/// A single scalar domain value, created fresh per evaluation point.
#[derive(Clone, Copy, Debug, PartialEq, Eq, Structural)]
pub struct Variable {
    pub value: Scalar,
}

impl View for Variable {
    type V = int;

    open spec fn view(&self) -> int {
        self.value@
    }
}

impl Variable {
    /// A variable holding the given scalar value.
    pub fn new(value: Scalar) -> (r: Variable)
        ensures
            r@ == value@,
    {
        Variable { value }
    }
}

} // verus!
