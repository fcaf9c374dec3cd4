use vstd::prelude::*;
use crate::constraints::base::{refs_view, Constraint, ParameterRef};

verus! {

/// The point `p1` lies on the segment from `p_line_a` to `p_line_b`.
///
/// One residual row, the squared distance from the point to the nearest
/// point of the segment, over the operands `[x1, y1, xa, ya, xb, yb]`.
#[derive(Debug, Clone)]
pub struct PointOnLineConstraint {
    pub p1: String,
    pub p_line_a: String,
    pub p_line_b: String,
}

impl PointOnLineConstraint {
    pub fn new(p1: String, p_line_a: String, p_line_b: String) -> (c: Self)
        ensures
            c.p1 == p1,
            c.p_line_a == p_line_a,
            c.p_line_b == p_line_b,
    {
        Self { p1, p_line_a, p_line_b }
    }
}

impl Constraint for PointOnLineConstraint {
    open spec fn residuals(&self) -> nat {
        1
    }

    open spec fn operands(&self) -> Seq<(Seq<char>, int)> {
        seq![(self.p1@, 0int), (self.p1@, 1int), (self.p_line_a@, 0int), (self.p_line_a@, 1int), (self.p_line_b@, 0int), (self.p_line_b@, 1int)]
    }

    fn num_residuals(&self) -> (m: usize) {
        1
    }

    fn parameter_refs(&self) -> (refs: Vec<ParameterRef>) {
        let mut refs: Vec<ParameterRef> = Vec::new();
        refs.push(ParameterRef::new(self.p1.clone(), 0));
        refs.push(ParameterRef::new(self.p1.clone(), 1));
        refs.push(ParameterRef::new(self.p_line_a.clone(), 0));
        refs.push(ParameterRef::new(self.p_line_a.clone(), 1));
        refs.push(ParameterRef::new(self.p_line_b.clone(), 0));
        refs.push(ParameterRef::new(self.p_line_b.clone(), 1));
        assert(refs_view(refs@) =~= self.operands());
        refs
    }
}

} // verus!
