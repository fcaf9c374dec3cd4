use vstd::prelude::*;
use crate::error::SolverError;
use crate::constraints::coincident::CoincidentConstraint;
use crate::constraints::equal_radius::EqualRadiusConstraint;
use crate::constraints::equal_x::EqualXConstraint;
use crate::constraints::equal_y::EqualYConstraint;
use crate::constraints::horizontal::HorizontalConstraint;
use crate::constraints::parallel::ParallelConstraint;
use crate::constraints::point_on_line::PointOnLineConstraint;
use crate::constraints::vertical::VerticalConstraint;

verus! {

/// A reference to one solver parameter: an entity id and a local index
/// into that entity's parameter list.
#[derive(Debug, Clone)]
pub struct ParameterRef {
    pub entity: String,
    pub local: usize,
}

impl ParameterRef {
    pub fn new(entity: String, local: usize) -> (r: Self)
        ensures
            r.entity == entity,
            r.local == local,
    {
        ParameterRef { entity, local }
    }
}

/// The mathematical content of a list of references.
pub open spec fn refs_view(refs: Seq<ParameterRef>) -> Seq<(Seq<char>, int)> {
    refs.map_values(|r: ParameterRef| (r.entity@, r.local as int))
}

/// What is asked of a constraint for the bookkeeping of a solve: how many
/// residual rows it contributes, and which parameters its residual reads.
///
/// The order of the operands is part of the constraint's definition: the
/// residual and its partial derivatives are evaluated on the operand values
/// in this order, and the partial derivative with respect to operand `k`
/// belongs in the Jacobian column of that operand.
pub trait Constraint {
    /// The number of residual rows.
    spec fn residuals(&self) -> nat;

    /// The parameters that the residual reads.
    spec fn operands(&self) -> Seq<(Seq<char>, int)>;

    fn num_residuals(&self) -> (m: usize)
        ensures
            m == self.residuals(),
    ;

    fn parameter_refs(&self) -> (refs: Vec<ParameterRef>)
        ensures
            refs_view(refs@) == self.operands(),
    ;
}

/// A constraint as a host describes it. Points, circles and arcs are named
/// by their ids.
#[derive(Debug, Clone, PartialEq)]
pub enum ConstraintType<S> {
    /// Two points share their x.
    Vertical(String, String),
    /// Two points share their y.
    Horizontal(String, String),
    /// The line through the first two points is parallel to the line
    /// through the last two.
    Parallel(String, String, String, String),
    /// A point has the given x.
    EqualX(String, S),
    /// A point has the given y.
    EqualY(String, S),
    /// Two points are at the same place.
    Coincident(String, String),
    /// A point lies on the segment between two others.
    PointOnLine(String, String, String),
    /// Two circles or arcs have the same radius.
    EqualRadius(String, String),
    /// A circle or arc has the given radius. Declared, not implemented.
    FixedRadius(String, S),
    /// A point lies on a circle. Declared, not implemented.
    PointOnCircle(String, String),
    /// Two circles touch. Declared, not implemented.
    Tangent(String, String),
}

/// Any one of the implemented constraints.
#[derive(Debug, Clone)]
pub enum AnyConstraint<S> {
    Vertical(VerticalConstraint),
    Horizontal(HorizontalConstraint),
    Parallel(ParallelConstraint),
    EqualX(EqualXConstraint<S>),
    EqualY(EqualYConstraint<S>),
    Coincident(CoincidentConstraint),
    PointOnLine(PointOnLineConstraint),
    EqualRadius(EqualRadiusConstraint),
}

impl<S: Copy> Constraint for AnyConstraint<S> {
    open spec fn residuals(&self) -> nat {
        match self {
            AnyConstraint::Vertical(c) => c.residuals(),
            AnyConstraint::Horizontal(c) => c.residuals(),
            AnyConstraint::Parallel(c) => c.residuals(),
            AnyConstraint::EqualX(c) => c.residuals(),
            AnyConstraint::EqualY(c) => c.residuals(),
            AnyConstraint::Coincident(c) => c.residuals(),
            AnyConstraint::PointOnLine(c) => c.residuals(),
            AnyConstraint::EqualRadius(c) => c.residuals(),
        }
    }

    open spec fn operands(&self) -> Seq<(Seq<char>, int)> {
        match self {
            AnyConstraint::Vertical(c) => c.operands(),
            AnyConstraint::Horizontal(c) => c.operands(),
            AnyConstraint::Parallel(c) => c.operands(),
            AnyConstraint::EqualX(c) => c.operands(),
            AnyConstraint::EqualY(c) => c.operands(),
            AnyConstraint::Coincident(c) => c.operands(),
            AnyConstraint::PointOnLine(c) => c.operands(),
            AnyConstraint::EqualRadius(c) => c.operands(),
        }
    }

    fn num_residuals(&self) -> (m: usize) {
        match self {
            AnyConstraint::Vertical(c) => c.num_residuals(),
            AnyConstraint::Horizontal(c) => c.num_residuals(),
            AnyConstraint::Parallel(c) => c.num_residuals(),
            AnyConstraint::EqualX(c) => c.num_residuals(),
            AnyConstraint::EqualY(c) => c.num_residuals(),
            AnyConstraint::Coincident(c) => c.num_residuals(),
            AnyConstraint::PointOnLine(c) => c.num_residuals(),
            AnyConstraint::EqualRadius(c) => c.num_residuals(),
        }
    }

    fn parameter_refs(&self) -> (refs: Vec<ParameterRef>) {
        match self {
            AnyConstraint::Vertical(c) => c.parameter_refs(),
            AnyConstraint::Horizontal(c) => c.parameter_refs(),
            AnyConstraint::Parallel(c) => c.parameter_refs(),
            AnyConstraint::EqualX(c) => c.parameter_refs(),
            AnyConstraint::EqualY(c) => c.parameter_refs(),
            AnyConstraint::Coincident(c) => c.parameter_refs(),
            AnyConstraint::PointOnLine(c) => c.parameter_refs(),
            AnyConstraint::EqualRadius(c) => c.parameter_refs(),
        }
    }
}

/// What `create_constraint` makes of a description.
pub open spec fn created<S>(constraint_type: ConstraintType<S>) -> Result<AnyConstraint<S>, SolverError> {
    match constraint_type {
        ConstraintType::Vertical(p1, p2) => Ok(AnyConstraint::Vertical(VerticalConstraint { p1, p2 })),
        ConstraintType::Horizontal(p1, p2) => Ok(
            AnyConstraint::Horizontal(HorizontalConstraint { p1, p2 }),
        ),
        ConstraintType::Parallel(p1, p2, p3, p4) => Ok(
            AnyConstraint::Parallel(ParallelConstraint { p1, p2, p3, p4 }),
        ),
        ConstraintType::EqualX(p1, x) => Ok(AnyConstraint::EqualX(EqualXConstraint { p1, x })),
        ConstraintType::EqualY(p1, y) => Ok(AnyConstraint::EqualY(EqualYConstraint { p1, y })),
        ConstraintType::Coincident(p1, p2) => Ok(
            AnyConstraint::Coincident(CoincidentConstraint { p1, p2 }),
        ),
        ConstraintType::PointOnLine(p1, p_line_a, p_line_b) => Ok(
            AnyConstraint::PointOnLine(PointOnLineConstraint { p1, p_line_a, p_line_b }),
        ),
        ConstraintType::EqualRadius(circle1_id, circle2_id) => Ok(
            AnyConstraint::EqualRadius(EqualRadiusConstraint { circle1_id, circle2_id }),
        ),
        ConstraintType::FixedRadius(_, _) => Err(SolverError::Unimplemented),
        ConstraintType::PointOnCircle(_, _) => Err(SolverError::Unimplemented),
        ConstraintType::Tangent(_, _) => Err(SolverError::Unimplemented),
    }
}

/// Builds the constraint that a description names. The kinds that are
/// declared but not implemented are refused with `Unimplemented`.
pub fn create_constraint<S: Copy>(constraint_type: ConstraintType<S>) -> (r: Result<
    AnyConstraint<S>,
    SolverError,
>)
    ensures
        r == created(constraint_type),
{
    match constraint_type {
        ConstraintType::Vertical(p1, p2) => Ok(AnyConstraint::Vertical(VerticalConstraint::new(p1, p2))),
        ConstraintType::Horizontal(p1, p2) => Ok(
            AnyConstraint::Horizontal(HorizontalConstraint::new(p1, p2)),
        ),
        ConstraintType::Parallel(p1, p2, p3, p4) => Ok(
            AnyConstraint::Parallel(ParallelConstraint::new(p1, p2, p3, p4)),
        ),
        ConstraintType::EqualX(p1, x) => Ok(AnyConstraint::EqualX(EqualXConstraint::new(p1, x))),
        ConstraintType::EqualY(p1, y) => Ok(AnyConstraint::EqualY(EqualYConstraint::new(p1, y))),
        ConstraintType::Coincident(p1, p2) => Ok(
            AnyConstraint::Coincident(CoincidentConstraint::new(p1, p2)),
        ),
        ConstraintType::PointOnLine(p1, p_line_a, p_line_b) => Ok(
            AnyConstraint::PointOnLine(PointOnLineConstraint::new(p1, p_line_a, p_line_b)),
        ),
        ConstraintType::EqualRadius(circle1_id, circle2_id) => Ok(
            AnyConstraint::EqualRadius(EqualRadiusConstraint::new(circle1_id, circle2_id)),
        ),
        ConstraintType::FixedRadius(_, _) => Err(SolverError::Unimplemented),
        ConstraintType::PointOnCircle(_, _) => Err(SolverError::Unimplemented),
        ConstraintType::Tangent(_, _) => Err(SolverError::Unimplemented),
    }
}

} // verus!
