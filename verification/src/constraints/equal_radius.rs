use vstd::prelude::*;
use crate::constraints::base::{refs_view, Constraint, ParameterRef};

verus! {

/// Two circles or arcs have the same radius.
///
/// One residual row, `r1 - r2`, over the operands `[r1, r2]`; its partial
/// derivatives are `[1, -1]`.
#[derive(Debug, Clone)]
pub struct EqualRadiusConstraint {
    pub circle1_id: String,
    pub circle2_id: String,
}

impl EqualRadiusConstraint {
    pub fn new(circle1_id: String, circle2_id: String) -> (c: Self)
        ensures
            c.circle1_id == circle1_id,
            c.circle2_id == circle2_id,
    {
        Self { circle1_id, circle2_id }
    }
}

impl Constraint for EqualRadiusConstraint {
    open spec fn residuals(&self) -> nat {
        1
    }

    open spec fn operands(&self) -> Seq<(Seq<char>, int)> {
        seq![(self.circle1_id@, 0int), (self.circle2_id@, 0int)]
    }

    fn num_residuals(&self) -> (m: usize) {
        1
    }

    fn parameter_refs(&self) -> (refs: Vec<ParameterRef>) {
        let mut refs: Vec<ParameterRef> = Vec::new();
        refs.push(ParameterRef::new(self.circle1_id.clone(), 0));
        refs.push(ParameterRef::new(self.circle2_id.clone(), 0));
        assert(refs_view(refs@) =~= self.operands());
        refs
    }
}

} // verus!
