use vstd::prelude::*;
use crate::constraints::base::{refs_view, Constraint, ParameterRef};

verus! {

/// Two points are at the same place.
///
/// Two residual rows, `x1 - x2` and `y1 - y2`, over the operands
/// `[x1, y1, x2, y2]`; their partial derivatives are `[1, 0, -1, 0]` and
/// `[0, 1, 0, -1]`.
#[derive(Debug, Clone)]
pub struct CoincidentConstraint {
    pub p1: String,
    pub p2: String,
}

impl CoincidentConstraint {
    pub fn new(p1: String, p2: String) -> (c: Self)
        ensures
            c.p1 == p1,
            c.p2 == p2,
    {
        Self { p1, p2 }
    }
}

impl Constraint for CoincidentConstraint {
    open spec fn residuals(&self) -> nat {
        2
    }

    open spec fn operands(&self) -> Seq<(Seq<char>, int)> {
        seq![(self.p1@, 0int), (self.p1@, 1int), (self.p2@, 0int), (self.p2@, 1int)]
    }

    fn num_residuals(&self) -> (m: usize) {
        2
    }

    fn parameter_refs(&self) -> (refs: Vec<ParameterRef>) {
        let mut refs: Vec<ParameterRef> = Vec::new();
        refs.push(ParameterRef::new(self.p1.clone(), 0));
        refs.push(ParameterRef::new(self.p1.clone(), 1));
        refs.push(ParameterRef::new(self.p2.clone(), 0));
        refs.push(ParameterRef::new(self.p2.clone(), 1));
        assert(refs_view(refs@) =~= self.operands());
        refs
    }
}

} // verus!
