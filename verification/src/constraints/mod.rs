pub mod base;
pub mod coincident;
pub mod equal_radius;
pub mod equal_x;
pub mod equal_y;
pub mod horizontal;
pub mod parallel;
pub mod point_on_line;
pub mod vertical;

pub use crate::constraints::base::{create_constraint, AnyConstraint, Constraint, ConstraintType, ParameterRef};
pub use crate::constraints::coincident::CoincidentConstraint;
pub use crate::constraints::equal_radius::EqualRadiusConstraint;
pub use crate::constraints::equal_x::EqualXConstraint;
pub use crate::constraints::equal_y::EqualYConstraint;
pub use crate::constraints::horizontal::HorizontalConstraint;
pub use crate::constraints::parallel::ParallelConstraint;
pub use crate::constraints::point_on_line::PointOnLineConstraint;
pub use crate::constraints::vertical::VerticalConstraint;
