use vstd::prelude::*;
use crate::constraints::base::{refs_view, Constraint, ParameterRef};

verus! {

/// A point has a given x.
///
/// One residual row, `x1 - x`, over the operand `[x1]`; its partial
/// derivative is `[1]`.
#[derive(Debug, Clone)]
pub struct EqualXConstraint<S> {
    pub p1: String,
    pub x: S,
}

impl<S: Copy> EqualXConstraint<S> {
    pub fn new(p1: String, x: S) -> (c: Self)
        ensures
            c.p1 == p1,
            c.x == x,
    {
        Self { p1, x }
    }
}

impl<S: Copy> Constraint for EqualXConstraint<S> {
    open spec fn residuals(&self) -> nat {
        1
    }

    open spec fn operands(&self) -> Seq<(Seq<char>, int)> {
        seq![(self.p1@, 0int)]
    }

    fn num_residuals(&self) -> (m: usize) {
        1
    }

    fn parameter_refs(&self) -> (refs: Vec<ParameterRef>) {
        let mut refs: Vec<ParameterRef> = Vec::new();
        refs.push(ParameterRef::new(self.p1.clone(), 0));
        assert(refs_view(refs@) =~= self.operands());
        refs
    }
}

} // verus!
