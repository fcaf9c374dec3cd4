use vstd::prelude::*;
use vstd::std_specs::convert::{FromSpecImpl, TryFromSpecImpl};
use crate::constraints::base::ConstraintType;
use crate::error::SolverError;
use crate::geometry::{Arc, Circle, Line, Point};
use crate::solver::SolverResult;

verus! {

/// A primitive as a host writes it: one shape for all kinds, told apart
/// by the variant.
#[derive(Debug, Clone)]
pub enum PrimitiveJson<S> {
    Point { id: String, x: S, y: S, fixed: bool },
    Circle { id: String, center: String, radius: S, fixed: bool },
    Line { id: String, start: String, end: String },
    Arc { id: String, center: String, radius: S, start_angle: S, end_angle: S, fixed: bool },
}

/// A constraint as a host writes it, with named fields.
#[derive(Debug, Clone)]
pub enum ConstraintJson<S> {
    Vertical { point_a: String, point_b: String },
    Horizontal { point_a: String, point_b: String },
    Parallel { point_a: String, point_b: String, point_c: String, point_d: String },
    EqualX { point: String, x: S },
    EqualY { point: String, y: S },
    Coincident { point_a: String, point_b: String },
    PointOnLine { point: String, point_line_a: String, point_line_b: String },
    EqualRadius { circle1: String, circle2: String },
    FixedRadius { circle: String, radius: S },
    PointOnCircle { point: String, circle: String },
    Tangent { entity1: String, entity2: String },
}

/// What a host sends for a solve: the primitives and the constraints.
#[derive(Debug, Clone)]
pub struct SolverRequest<S> {
    pub primitives: Vec<PrimitiveJson<S>>,
    pub constraints: Vec<ConstraintJson<S>>,
}

/// The result of a solve as a host reads it.
#[derive(Debug, Clone, Copy)]
pub struct SolverResultJson<S> {
    pub converged: bool,
    pub iterations: usize,
    pub final_error: S,
    pub initial_error: S,
}

/// What a host gets back from a solve: the primitives and the result.
#[derive(Debug, Clone)]
pub struct SolverResponse<S> {
    pub primitives: Vec<PrimitiveJson<S>>,
    pub result: SolverResultJson<S>,
}

impl<S> From<Point<S>> for PrimitiveJson<S> {
    fn from(point: Point<S>) -> (primitive: Self) {
        PrimitiveJson::Point { id: point.id, x: point.x, y: point.y, fixed: point.fixed }
    }
}

impl<S> FromSpecImpl<Point<S>> for PrimitiveJson<S> {
    open spec fn obeys_from_spec() -> bool {
        true
    }

    open spec fn from_spec(point: Point<S>) -> Self {
        PrimitiveJson::Point { id: point.id, x: point.x, y: point.y, fixed: point.fixed }
    }
}

impl<S> From<Circle<S>> for PrimitiveJson<S> {
    fn from(circle: Circle<S>) -> (primitive: Self) {
        PrimitiveJson::Circle {
            id: circle.id,
            center: circle.center,
            radius: circle.radius,
            fixed: circle.fixed,
        }
    }
}

impl<S> FromSpecImpl<Circle<S>> for PrimitiveJson<S> {
    open spec fn obeys_from_spec() -> bool {
        true
    }

    open spec fn from_spec(circle: Circle<S>) -> Self {
        PrimitiveJson::Circle {
            id: circle.id,
            center: circle.center,
            radius: circle.radius,
            fixed: circle.fixed,
        }
    }
}

impl<S> From<Line> for PrimitiveJson<S> {
    fn from(line: Line) -> (primitive: Self) {
        PrimitiveJson::Line { id: line.id, start: line.start, end: line.end }
    }
}

impl<S> FromSpecImpl<Line> for PrimitiveJson<S> {
    open spec fn obeys_from_spec() -> bool {
        true
    }

    open spec fn from_spec(line: Line) -> Self {
        PrimitiveJson::Line { id: line.id, start: line.start, end: line.end }
    }
}

impl<S> From<Arc<S>> for PrimitiveJson<S> {
    fn from(arc: Arc<S>) -> (primitive: Self) {
        PrimitiveJson::Arc {
            id: arc.id,
            center: arc.center,
            radius: arc.radius,
            start_angle: arc.start_angle,
            end_angle: arc.end_angle,
            fixed: arc.fixed,
        }
    }
}

impl<S> FromSpecImpl<Arc<S>> for PrimitiveJson<S> {
    open spec fn obeys_from_spec() -> bool {
        true
    }

    open spec fn from_spec(arc: Arc<S>) -> Self {
        PrimitiveJson::Arc {
            id: arc.id,
            center: arc.center,
            radius: arc.radius,
            start_angle: arc.start_angle,
            end_angle: arc.end_angle,
            fixed: arc.fixed,
        }
    }
}

impl<S> From<ConstraintType<S>> for ConstraintJson<S> {
    fn from(constraint: ConstraintType<S>) -> (json: Self) {
        match constraint {
            ConstraintType::Vertical(p1, p2) => ConstraintJson::Vertical { point_a: p1, point_b: p2 },
            ConstraintType::Horizontal(p1, p2) => ConstraintJson::Horizontal { point_a: p1, point_b: p2 },
            ConstraintType::Parallel(p1, p2, p3, p4) => ConstraintJson::Parallel {
                point_a: p1,
                point_b: p2,
                point_c: p3,
                point_d: p4,
            },
            ConstraintType::EqualX(p, x) => ConstraintJson::EqualX { point: p, x },
            ConstraintType::EqualY(p, y) => ConstraintJson::EqualY { point: p, y },
            ConstraintType::Coincident(p1, p2) => ConstraintJson::Coincident { point_a: p1, point_b: p2 },
            ConstraintType::PointOnLine(p, a, b) => ConstraintJson::PointOnLine {
                point: p,
                point_line_a: a,
                point_line_b: b,
            },
            ConstraintType::EqualRadius(c1, c2) => ConstraintJson::EqualRadius { circle1: c1, circle2: c2 },
            ConstraintType::FixedRadius(c, r) => ConstraintJson::FixedRadius { circle: c, radius: r },
            ConstraintType::PointOnCircle(p, c) => ConstraintJson::PointOnCircle { point: p, circle: c },
            ConstraintType::Tangent(e1, e2) => ConstraintJson::Tangent { entity1: e1, entity2: e2 },
        }
    }
}

impl<S> FromSpecImpl<ConstraintType<S>> for ConstraintJson<S> {
    open spec fn obeys_from_spec() -> bool {
        true
    }

    open spec fn from_spec(constraint: ConstraintType<S>) -> Self {
        match constraint {
            ConstraintType::Vertical(p1, p2) => ConstraintJson::Vertical { point_a: p1, point_b: p2 },
            ConstraintType::Horizontal(p1, p2) => ConstraintJson::Horizontal { point_a: p1, point_b: p2 },
            ConstraintType::Parallel(p1, p2, p3, p4) => ConstraintJson::Parallel {
                point_a: p1,
                point_b: p2,
                point_c: p3,
                point_d: p4,
            },
            ConstraintType::EqualX(p, x) => ConstraintJson::EqualX { point: p, x },
            ConstraintType::EqualY(p, y) => ConstraintJson::EqualY { point: p, y },
            ConstraintType::Coincident(p1, p2) => ConstraintJson::Coincident { point_a: p1, point_b: p2 },
            ConstraintType::PointOnLine(p, a, b) => ConstraintJson::PointOnLine {
                point: p,
                point_line_a: a,
                point_line_b: b,
            },
            ConstraintType::EqualRadius(c1, c2) => ConstraintJson::EqualRadius { circle1: c1, circle2: c2 },
            ConstraintType::FixedRadius(c, r) => ConstraintJson::FixedRadius { circle: c, radius: r },
            ConstraintType::PointOnCircle(p, c) => ConstraintJson::PointOnCircle { point: p, circle: c },
            ConstraintType::Tangent(e1, e2) => ConstraintJson::Tangent { entity1: e1, entity2: e2 },
        }
    }
}

impl<S> From<SolverResult<S>> for SolverResultJson<S> {
    fn from(result: SolverResult<S>) -> (json: Self) {
        match result {
            SolverResult::Converged { iterations, final_error, initial_error } => SolverResultJson {
                converged: true,
                iterations,
                final_error,
                initial_error,
            },
            SolverResult::MaxIterationsReached { iterations, final_error, initial_error } => SolverResultJson {
                converged: false,
                iterations,
                final_error,
                initial_error,
            },
        }
    }
}

impl<S> FromSpecImpl<SolverResult<S>> for SolverResultJson<S> {
    open spec fn obeys_from_spec() -> bool {
        true
    }

    open spec fn from_spec(result: SolverResult<S>) -> Self {
        match result {
            SolverResult::Converged { iterations, final_error, initial_error } => SolverResultJson {
                converged: true,
                iterations,
                final_error,
                initial_error,
            },
            SolverResult::MaxIterationsReached { iterations, final_error, initial_error } => SolverResultJson {
                converged: false,
                iterations,
                final_error,
                initial_error,
            },
        }
    }
}

impl<S> TryFrom<PrimitiveJson<S>> for Point<S> {
    type Error = SolverError;

    fn try_from(primitive: PrimitiveJson<S>) -> (r: Result<Self, SolverError>) {
        match primitive {
            PrimitiveJson::Point { id, x, y, fixed } => Ok(Point { id, x, y, fixed }),
            _ => Err(SolverError::InvalidOperation),
        }
    }
}

impl<S> TryFromSpecImpl<PrimitiveJson<S>> for Point<S> {
    open spec fn obeys_try_from_spec() -> bool {
        true
    }

    open spec fn try_from_spec(primitive: PrimitiveJson<S>) -> Result<Self, SolverError> {
        match primitive {
            PrimitiveJson::Point { id, x, y, fixed } => Ok(Point { id, x, y, fixed }),
            _ => Err(SolverError::InvalidOperation),
        }
    }
}

impl<S> TryFrom<PrimitiveJson<S>> for Circle<S> {
    type Error = SolverError;

    fn try_from(primitive: PrimitiveJson<S>) -> (r: Result<Self, SolverError>) {
        match primitive {
            PrimitiveJson::Circle { id, center, radius, fixed } => Ok(Circle { id, center, radius, fixed }),
            _ => Err(SolverError::InvalidOperation),
        }
    }
}

impl<S> TryFromSpecImpl<PrimitiveJson<S>> for Circle<S> {
    open spec fn obeys_try_from_spec() -> bool {
        true
    }

    open spec fn try_from_spec(primitive: PrimitiveJson<S>) -> Result<Self, SolverError> {
        match primitive {
            PrimitiveJson::Circle { id, center, radius, fixed } => Ok(Circle { id, center, radius, fixed }),
            _ => Err(SolverError::InvalidOperation),
        }
    }
}

impl<S> TryFrom<PrimitiveJson<S>> for Line {
    type Error = SolverError;

    fn try_from(primitive: PrimitiveJson<S>) -> (r: Result<Self, SolverError>) {
        match primitive {
            PrimitiveJson::Line { id, start, end } => Ok(Line { id, start, end }),
            _ => Err(SolverError::InvalidOperation),
        }
    }
}

impl<S> TryFromSpecImpl<PrimitiveJson<S>> for Line {
    open spec fn obeys_try_from_spec() -> bool {
        true
    }

    open spec fn try_from_spec(primitive: PrimitiveJson<S>) -> Result<Self, SolverError> {
        match primitive {
            PrimitiveJson::Line { id, start, end } => Ok(Line { id, start, end }),
            _ => Err(SolverError::InvalidOperation),
        }
    }
}

impl<S> TryFrom<PrimitiveJson<S>> for Arc<S> {
    type Error = SolverError;

    fn try_from(primitive: PrimitiveJson<S>) -> (r: Result<Self, SolverError>) {
        match primitive {
            PrimitiveJson::Arc { id, center, radius, start_angle, end_angle, fixed } => Ok(
                Arc { id, center, radius, start_angle, end_angle, fixed },
            ),
            _ => Err(SolverError::InvalidOperation),
        }
    }
}

impl<S> TryFromSpecImpl<PrimitiveJson<S>> for Arc<S> {
    open spec fn obeys_try_from_spec() -> bool {
        true
    }

    open spec fn try_from_spec(primitive: PrimitiveJson<S>) -> Result<Self, SolverError> {
        match primitive {
            PrimitiveJson::Arc { id, center, radius, start_angle, end_angle, fixed } => Ok(
                Arc { id, center, radius, start_angle, end_angle, fixed },
            ),
            _ => Err(SolverError::InvalidOperation),
        }
    }
}

impl<S> TryFrom<ConstraintJson<S>> for ConstraintType<S> {
    type Error = SolverError;

    fn try_from(constraint: ConstraintJson<S>) -> (r: Result<Self, SolverError>) {
        match constraint {
            ConstraintJson::Vertical { point_a, point_b } => Ok(ConstraintType::Vertical(point_a, point_b)),
            ConstraintJson::Horizontal { point_a, point_b } => Ok(ConstraintType::Horizontal(point_a, point_b)),
            ConstraintJson::Parallel { point_a, point_b, point_c, point_d } => Ok(
                ConstraintType::Parallel(point_a, point_b, point_c, point_d),
            ),
            ConstraintJson::EqualX { point, x } => Ok(ConstraintType::EqualX(point, x)),
            ConstraintJson::EqualY { point, y } => Ok(ConstraintType::EqualY(point, y)),
            ConstraintJson::Coincident { point_a, point_b } => Ok(ConstraintType::Coincident(point_a, point_b)),
            ConstraintJson::PointOnLine { point, point_line_a, point_line_b } => Ok(
                ConstraintType::PointOnLine(point, point_line_a, point_line_b),
            ),
            ConstraintJson::EqualRadius { circle1, circle2 } => Ok(ConstraintType::EqualRadius(circle1, circle2)),
            ConstraintJson::FixedRadius { circle, radius } => Ok(ConstraintType::FixedRadius(circle, radius)),
            ConstraintJson::PointOnCircle { point, circle } => Ok(ConstraintType::PointOnCircle(point, circle)),
            ConstraintJson::Tangent { entity1, entity2 } => Ok(ConstraintType::Tangent(entity1, entity2)),
        }
    }
}

impl<S> TryFromSpecImpl<ConstraintJson<S>> for ConstraintType<S> {
    open spec fn obeys_try_from_spec() -> bool {
        true
    }

    open spec fn try_from_spec(constraint: ConstraintJson<S>) -> Result<Self, SolverError> {
        match constraint {
            ConstraintJson::Vertical { point_a, point_b } => Ok(ConstraintType::Vertical(point_a, point_b)),
            ConstraintJson::Horizontal { point_a, point_b } => Ok(ConstraintType::Horizontal(point_a, point_b)),
            ConstraintJson::Parallel { point_a, point_b, point_c, point_d } => Ok(
                ConstraintType::Parallel(point_a, point_b, point_c, point_d),
            ),
            ConstraintJson::EqualX { point, x } => Ok(ConstraintType::EqualX(point, x)),
            ConstraintJson::EqualY { point, y } => Ok(ConstraintType::EqualY(point, y)),
            ConstraintJson::Coincident { point_a, point_b } => Ok(ConstraintType::Coincident(point_a, point_b)),
            ConstraintJson::PointOnLine { point, point_line_a, point_line_b } => Ok(
                ConstraintType::PointOnLine(point, point_line_a, point_line_b),
            ),
            ConstraintJson::EqualRadius { circle1, circle2 } => Ok(ConstraintType::EqualRadius(circle1, circle2)),
            ConstraintJson::FixedRadius { circle, radius } => Ok(ConstraintType::FixedRadius(circle, radius)),
            ConstraintJson::PointOnCircle { point, circle } => Ok(ConstraintType::PointOnCircle(point, circle)),
            ConstraintJson::Tangent { entity1, entity2 } => Ok(ConstraintType::Tangent(entity1, entity2)),
        }
    }
}

} // verus!
