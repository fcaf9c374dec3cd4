use vstd::prelude::*;
use crate::constraints::base::{refs_view, Constraint, ParameterRef};

verus! {

/// The line through `p1` and `p2` is parallel to the line through `p3` and
/// `p4`.
///
/// One residual row, the cross product of the two directions,
/// `(x2 - x1) * (y4 - y3) - (y2 - y1) * (x4 - x3)`, over the operands
/// `[x1, y1, x2, y2, x3, y3, x4, y4]`.
#[derive(Debug, Clone)]
pub struct ParallelConstraint {
    pub p1: String,
    pub p2: String,
    pub p3: String,
    pub p4: String,
}

impl ParallelConstraint {
    pub fn new(p1: String, p2: String, p3: String, p4: String) -> (c: Self)
        ensures
            c.p1 == p1,
            c.p2 == p2,
            c.p3 == p3,
            c.p4 == p4,
    {
        Self { p1, p2, p3, p4 }
    }
}

impl Constraint for ParallelConstraint {
    open spec fn residuals(&self) -> nat {
        1
    }

    open spec fn operands(&self) -> Seq<(Seq<char>, int)> {
        seq![(self.p1@, 0int), (self.p1@, 1int), (self.p2@, 0int), (self.p2@, 1int), (self.p3@, 0int), (self.p3@, 1int), (self.p4@, 0int), (self.p4@, 1int)]
    }

    fn num_residuals(&self) -> (m: usize) {
        1
    }

    fn parameter_refs(&self) -> (refs: Vec<ParameterRef>) {
        let mut refs: Vec<ParameterRef> = Vec::new();
        refs.push(ParameterRef::new(self.p1.clone(), 0));
        refs.push(ParameterRef::new(self.p1.clone(), 1));
        refs.push(ParameterRef::new(self.p2.clone(), 0));
        refs.push(ParameterRef::new(self.p2.clone(), 1));
        refs.push(ParameterRef::new(self.p3.clone(), 0));
        refs.push(ParameterRef::new(self.p3.clone(), 1));
        refs.push(ParameterRef::new(self.p4.clone(), 0));
        refs.push(ParameterRef::new(self.p4.clone(), 1));
        assert(refs_view(refs@) =~= self.operands());
        refs
    }
}

} // verus!
