use vstd::prelude::*;
use crate::constraints::base::{refs_view, Constraint, ParameterRef};

verus! {

/// A point has a given y.
///
/// One residual row, `y1 - y`, over the operand `[y1]`; its partial
/// derivative is `[1]`.
#[derive(Debug, Clone)]
pub struct EqualYConstraint<S> {
    pub p1: String,
    pub y: S,
}

impl<S: Copy> EqualYConstraint<S> {
    pub fn new(p1: String, y: S) -> (c: Self)
        ensures
            c.p1 == p1,
            c.y == y,
    {
        Self { p1, y }
    }
}

impl<S: Copy> Constraint for EqualYConstraint<S> {
    open spec fn residuals(&self) -> nat {
        1
    }

    open spec fn operands(&self) -> Seq<(Seq<char>, int)> {
        seq![(self.p1@, 1int)]
    }

    fn num_residuals(&self) -> (m: usize) {
        1
    }

    fn parameter_refs(&self) -> (refs: Vec<ParameterRef>) {
        let mut refs: Vec<ParameterRef> = Vec::new();
        refs.push(ParameterRef::new(self.p1.clone(), 1));
        assert(refs_view(refs@) =~= self.operands());
        refs
    }
}

} // verus!
