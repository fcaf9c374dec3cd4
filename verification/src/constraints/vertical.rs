use vstd::prelude::*;
use crate::constraints::base::{refs_view, Constraint, ParameterRef};

verus! {

/// Two points share their x.
///
/// One residual row, `x1 - x2`, over the operands `[x1, x2]`; its partial
/// derivatives are `[1, -1]`.
#[derive(Debug, Clone)]
pub struct VerticalConstraint {
    pub p1: String,
    pub p2: String,
}

impl VerticalConstraint {
    pub fn new(p1: String, p2: String) -> (c: Self)
        ensures
            c.p1 == p1,
            c.p2 == p2,
    {
        Self { p1, p2 }
    }
}

impl Constraint for VerticalConstraint {
    open spec fn residuals(&self) -> nat {
        1
    }

    open spec fn operands(&self) -> Seq<(Seq<char>, int)> {
        seq![(self.p1@, 0int), (self.p2@, 0int)]
    }

    fn num_residuals(&self) -> (m: usize) {
        1
    }

    fn parameter_refs(&self) -> (refs: Vec<ParameterRef>) {
        let mut refs: Vec<ParameterRef> = Vec::new();
        refs.push(ParameterRef::new(self.p1.clone(), 0));
        refs.push(ParameterRef::new(self.p2.clone(), 0));
        assert(refs_view(refs@) =~= self.operands());
        refs
    }
}

} // verus!
