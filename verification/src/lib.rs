//! A 2D geometric constraint solver: the bookkeeping and the decisions.
//!
//! A sketch is made of points, lines, circles and arcs, and of constraints
//! between them. To solve it, the scalar parameters of the primitives are
//! laid out in one vector, each constraint contributes residual rows over
//! the parameters it names, and a dog-leg trust-region iteration drives the
//! residual to zero while it leaves the fixed parameters alone.
//!
//! This crate holds everything of that which is not arithmetic on scalars:
//! the parameter manager, the constraint catalog, the layout and assembly of
//! the residual and the Jacobian, the trust radius, the state machine of a
//! solve, and the coordinator. It is generic in the scalar type `S`, which
//! it only stores and copies. The residual formulas, the norms and the
//! linear algebra are the caller's: a run says what it needs next, and the
//! caller computes it and reports it.

pub mod assembly;
pub mod bindings;
pub mod constraints;
pub mod dogleg_solver;
pub mod error;
pub mod geometry;
pub mod parameter_system;
pub mod registration;
pub mod solver;
pub mod trust_region;

pub use crate::assembly::SystemLayout;
pub use crate::constraints::{
    create_constraint, AnyConstraint, CoincidentConstraint, Constraint, ConstraintType,
    EqualRadiusConstraint, EqualXConstraint, EqualYConstraint, HorizontalConstraint,
    ParallelConstraint, ParameterRef, PointOnLineConstraint, VerticalConstraint,
};
pub use crate::dogleg_solver::{
    DogLegRun, ParametricDogLegSolver, Phase, SolverAction, SolverEvent,
};
pub use crate::error::SolverError;
pub use crate::geometry::{Arc, Circle, EntityMap, GeometrySystem, Line, Point};
pub use crate::parameter_system::{EntityType, ParameterInfo, ParameterManager, ParametricEntity};
pub use crate::solver::{ConstraintGraph, ConstraintSolver, SolverResult};
pub use crate::trust_region::{select_step, StepChoice, StepQuality, TrustRadius};
