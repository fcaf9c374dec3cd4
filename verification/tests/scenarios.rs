//! End-to-end solves. The library keeps the books of a solve and decides;
//! the arithmetic on `f64` and the linear algebra are done here, with
//! nalgebra, by a driver that answers what a run asks for.

use acs::{
    AnyConstraint, Circle, Constraint, ConstraintSolver, ConstraintType, DogLegRun, EntityType,
    EqualRadiusConstraint, ParameterManager, Point, SolverAction, SolverError, SolverEvent,
    SolverResult, StepChoice, StepQuality, SystemLayout, TrustRadius,
};
use nalgebra::{DMatrix, DVector};

const TOLERANCE: f64 = 1e-6;
const STAGNATION: f64 = 1e-12;
const EPSILON: f64 = 1e-12;

/// The residual rows of one constraint on the values of its operands.
fn residual_block(constraint: &AnyConstraint<f64>, v: &[f64]) -> Vec<f64> {
    match constraint {
        AnyConstraint::Vertical(_) | AnyConstraint::Horizontal(_) | AnyConstraint::EqualRadius(_) => {
            vec![v[0] - v[1]]
        }
        AnyConstraint::EqualX(c) => vec![v[0] - c.x],
        AnyConstraint::EqualY(c) => vec![v[0] - c.y],
        AnyConstraint::Coincident(_) => vec![v[0] - v[2], v[1] - v[3]],
        AnyConstraint::Parallel(_) => {
            vec![(v[2] - v[0]) * (v[7] - v[5]) - (v[3] - v[1]) * (v[6] - v[4])]
        }
        AnyConstraint::PointOnLine(_) => {
            let (t, degenerate) = segment_parameter(v);
            let (px, py) = if degenerate {
                (v[2], v[3])
            } else {
                (v[2] + t * (v[4] - v[2]), v[3] + t * (v[5] - v[3]))
            };
            vec![(v[0] - px) * (v[0] - px) + (v[1] - py) * (v[1] - py)]
        }
    }
}

/// The parameter of the point of the segment nearest to the point, and
/// whether the segment is so short that it counts as its first end.
fn segment_parameter(v: &[f64]) -> (f64, bool) {
    let dx = v[4] - v[2];
    let dy = v[5] - v[3];
    let length_squared = dx * dx + dy * dy;
    if length_squared < EPSILON {
        (0.0, true)
    } else {
        let t = ((v[0] - v[2]) * dx + (v[1] - v[3]) * dy) / length_squared;
        (t.clamp(0.0, 1.0), false)
    }
}

/// The partial derivatives of each residual row with respect to each operand.
fn jacobian_block(constraint: &AnyConstraint<f64>, v: &[f64]) -> Vec<Vec<f64>> {
    match constraint {
        AnyConstraint::Vertical(_) | AnyConstraint::Horizontal(_) | AnyConstraint::EqualRadius(_) => {
            vec![vec![1.0, -1.0]]
        }
        AnyConstraint::EqualX(_) | AnyConstraint::EqualY(_) => vec![vec![1.0]],
        AnyConstraint::Coincident(_) => {
            vec![vec![1.0, 0.0, -1.0, 0.0], vec![0.0, 1.0, 0.0, -1.0]]
        }
        AnyConstraint::Parallel(_) => vec![vec![
            -(v[7] - v[5]),
            v[6] - v[4],
            v[7] - v[5],
            -(v[6] - v[4]),
            v[3] - v[1],
            -(v[2] - v[0]),
            -(v[3] - v[1]),
            v[2] - v[0],
        ]],
        AnyConstraint::PointOnLine(_) => {
            let (t, degenerate) = segment_parameter(v);
            if degenerate {
                let ex = v[0] - v[2];
                let ey = v[1] - v[3];
                vec![vec![2.0 * ex, 2.0 * ey, -2.0 * ex, -2.0 * ey, 0.0, 0.0]]
            } else {
                let ex = v[0] - (v[2] + t * (v[4] - v[2]));
                let ey = v[1] - (v[3] + t * (v[5] - v[3]));
                vec![vec![
                    2.0 * ex,
                    2.0 * ey,
                    -2.0 * (1.0 - t) * ex,
                    -2.0 * (1.0 - t) * ey,
                    -2.0 * t * ex,
                    -2.0 * t * ey,
                ]]
            }
        }
    }
}

/// Assembles the residual and the Jacobian at a parameter vector.
fn assemble(
    layout: &SystemLayout,
    constraints: &[AnyConstraint<f64>],
    params: &[f64],
) -> (DVector<f64>, DMatrix<f64>) {
    let mut residual_blocks = Vec::new();
    let mut jacobian_blocks = Vec::new();
    for (i, constraint) in constraints.iter().enumerate() {
        let operands = layout.gather(i, params).expect("a constraint of the layout");
        residual_blocks.push(residual_block(constraint, &operands));
        jacobian_blocks.push(jacobian_block(constraint, &operands));
    }
    let residual = layout.assemble_residual(&residual_blocks).expect("blocks that fit");
    let rows = layout.assemble_jacobian(&jacobian_blocks, 0.0).expect("blocks that fit");
    let jacobian = DMatrix::from_fn(layout.row_count(), layout.column_count(), |i, j| rows[i][j]);
    (DVector::from_vec(residual), jacobian)
}

fn radius_value(radius: TrustRadius) -> f64 {
    let mantissa = if radius.five { 5.0 } else { 1.0 };
    mantissa * 2f64.powi(radius.exponent as i32)
}

/// The dog-leg step within a trust radius.
fn dog_leg_step(residual: &DVector<f64>, jacobian: &DMatrix<f64>, radius: f64) -> DVector<f64> {
    let jt = jacobian.transpose();
    let gradient = &jt * residual;
    let hessian = &jt * jacobian;
    let newton = match hessian.clone().try_inverse() {
        Some(inverse) if inverse.iter().all(|x| x.is_finite()) => -(inverse * &gradient),
        _ => {
            let pseudo = hessian
                .clone()
                .svd(true, true)
                .pseudo_inverse(EPSILON)
                .expect("a cutoff that is not negative");
            -(pseudo * &gradient)
        }
    };
    let denominator = (jacobian * &gradient).norm_squared();
    let alpha = if denominator > EPSILON { gradient.dot(&gradient) / denominator } else { 0.0 };
    let descent = -alpha * &gradient;
    match acs::select_step(newton.norm() <= radius, descent.norm() >= radius) {
        StepChoice::GaussNewton => newton,
        StepChoice::ScaledDescent => (radius / descent.norm()) * descent,
        StepChoice::DogLeg => {
            let difference = &newton - &descent;
            let a = difference.dot(&difference);
            let b = descent.dot(&difference);
            let c = descent.dot(&descent) - radius * radius;
            let tau = if a > EPSILON { (-b + (b * b - a * c).sqrt()) / a } else { 0.0 };
            descent + tau.clamp(0.0, 1.0) * difference
        }
    }
}

fn classify(rho: f64) -> StepQuality {
    StepQuality::from_comparisons(rho >= 0.0, rho < 0.25, rho > 0.75)
}

/// What a driven run asked for, and how each step it tried came out: the
/// squared residual norm before and after, and the quality reported.
struct Trace {
    asked: Vec<SolverAction<f64>>,
    steps: Vec<(f64, f64, StepQuality)>,
}

/// Drives a run to its end.
fn drive(run: &mut DogLegRun<f64>, constraints: &[AnyConstraint<f64>]) -> Trace {
    let mut trace = Trace { asked: Vec::new(), steps: Vec::new() };
    let mut system = None;
    let mut step = None;
    let mut action = run.action();
    loop {
        trace.asked.push(action);
        let event = match action {
            SolverAction::Evaluate => {
                let (residual, jacobian) = assemble(run.layout(), constraints, run.parameters());
                let norm = residual.norm();
                let stalled = match run.previous_norm() {
                    Some(previous) => (norm - previous).abs() < STAGNATION,
                    None => false,
                };
                system = Some((residual, jacobian));
                SolverEvent::Residual { norm, converged: norm < TOLERANCE, stalled }
            }
            SolverAction::ProposeStep { radius } => {
                let (residual, jacobian) = system.as_ref().expect("an evaluation before the step");
                let proposed = dog_leg_step(residual, jacobian, radius_value(radius));
                let candidate =
                    run.parameters().iter().zip(proposed.iter()).map(|(p, s)| p + s).collect();
                step = Some(proposed);
                SolverEvent::Candidate(candidate)
            }
            SolverAction::JudgeStep => {
                let (residual, jacobian) = system.as_ref().expect("an evaluation before the step");
                let proposed = step.as_ref().expect("a step before its judgement");
                let (tried, _) = assemble(run.layout(), constraints, run.parameters());
                let actual = 0.5 * residual.norm_squared() - 0.5 * tried.norm_squared();
                let gradient = jacobian.transpose() * residual;
                let predicted =
                    -gradient.dot(proposed) - 0.5 * (jacobian * proposed).norm_squared();
                let rho = if predicted.abs() > EPSILON { actual / predicted } else { 1.0 };
                let quality = classify(rho);
                trace.steps.push((residual.norm_squared(), tried.norm_squared(), quality));
                SolverEvent::Quality(quality)
            }
            SolverAction::Finish(_) => return trace,
        };
        action = run.advance(event);
    }
}

/// A whole solve of a sketch.
fn solve(solver: &mut ConstraintSolver<f64>) -> Result<SolverResult<f64>, SolverError> {
    let mut run = solver.begin_solve()?;
    let constraints = solver.get_constraints().to_vec();
    drive(&mut run, &constraints);
    solver.finish_solve(run)
}

fn equal_radius_setup(r1: f64, r2: f64) -> (ParameterManager<f64>, Vec<AnyConstraint<f64>>) {
    let center1 = Point::new("center1".to_string(), 0.0, 0.0, false);
    let center2 = Point::new("center2".to_string(), 10.0, 10.0, false);
    let circle1 = Circle::new("c1".to_string(), "center1".to_string(), r1, false);
    let circle2 = Circle::new("c2".to_string(), "center2".to_string(), r2, false);
    let mut param_manager = ParameterManager::new();
    param_manager.register_entity("center1".to_string(), EntityType::Point, &center1).unwrap();
    param_manager.register_entity("center2".to_string(), EntityType::Point, &center2).unwrap();
    param_manager.register_entity("c1".to_string(), EntityType::Circle, &circle1).unwrap();
    param_manager.register_entity("c2".to_string(), EntityType::Circle, &circle2).unwrap();
    let constraint = EqualRadiusConstraint::new("c1".to_string(), "c2".to_string());
    (param_manager, vec![AnyConstraint::EqualRadius(constraint)])
}

#[test]
fn test_equal_radius_constraint_residual() {
    let (param_manager, constraints) = equal_radius_setup(5.0, 3.0);
    let layout = SystemLayout::build(&constraints, &param_manager).unwrap();

    let (residual, _) = assemble(&layout, &constraints, param_manager.get_parameters());

    // Expected residual: radius1 - radius2 = 5.0 - 3.0 = 2.0
    assert_eq!(residual.len(), 1);
    assert!((residual[0] - 2.0).abs() < 1e-10, "Expected residual of 2.0, got {}", residual[0]);
}

#[test]
fn test_equal_radius_constraint_jacobian() {
    let (param_manager, constraints) = equal_radius_setup(5.0, 3.0);
    let layout = SystemLayout::build(&constraints, &param_manager).unwrap();

    let (_, jacobian) = assemble(&layout, &constraints, param_manager.get_parameters());

    // 1 row (one constraint) and 6 columns (2 points x 2 parameters + 2 circles x 1 parameter)
    assert_eq!(jacobian.nrows(), 1);
    assert_eq!(jacobian.ncols(), 6);

    let c1_radius_idx = param_manager.get_global_index("c1", 0).unwrap();
    assert!((jacobian[(0, c1_radius_idx)] - 1.0).abs() < 1e-10);

    let c2_radius_idx = param_manager.get_global_index("c2", 0).unwrap();
    assert!((jacobian[(0, c2_radius_idx)] - (-1.0)).abs() < 1e-10);

    for i in 0..jacobian.ncols() {
        if i != c1_radius_idx && i != c2_radius_idx {
            assert!(
                (jacobian[(0, i)]).abs() < 1e-10,
                "Non-zero entry at index {}: {}",
                i,
                jacobian[(0, i)]
            );
        }
    }
}

#[test]
fn test_equal_radius_constraint_zero_residual() {
    let (param_manager, constraints) = equal_radius_setup(4.0, 4.0);
    let layout = SystemLayout::build(&constraints, &param_manager).unwrap();

    let (residual, _) = assemble(&layout, &constraints, param_manager.get_parameters());

    // Expected residual: radius1 - radius2 = 4.0 - 4.0 = 0.0
    assert_eq!(residual.len(), 1);
    assert!(residual[0].abs() < 1e-10, "Expected residual of 0.0, got {}", residual[0]);
}

#[test]
fn test_equal_radius_constraint_num_residuals() {
    let constraint = EqualRadiusConstraint::new("c1".to_string(), "c2".to_string());
    assert_eq!(constraint.num_residuals(), 1);
}

#[test]
fn test_equal_radius_constraint_solver_integration() {
    let mut solver: ConstraintSolver<f64> = ConstraintSolver::new();

    let center1_id = solver.add_point(Point::new("center1".to_string(), 0.0, 0.0, false));
    let center2_id = solver.add_point(Point::new("center2".to_string(), 10.0, 10.0, false));

    let circle1_id =
        solver.add_circle(Circle::new("c1".to_string(), center1_id.clone(), 10.0, false));
    let circle2_id =
        solver.add_circle(Circle::new("c2".to_string(), center2_id.clone(), 3.0, false));

    let initial_circle1 = solver.get_circle(circle1_id.clone()).unwrap();
    let initial_circle2 = solver.get_circle(circle2_id.clone()).unwrap();
    assert!(
        (initial_circle1.radius - 10.0).abs() < 1e-10,
        "Initial circle1 radius should be 10.0"
    );
    assert!((initial_circle2.radius - 3.0).abs() < 1e-10, "Initial circle2 radius should be 3.0");

    solver
        .add_constraint(ConstraintType::EqualRadius(circle1_id.clone(), circle2_id.clone()))
        .unwrap();

    let result = solve(&mut solver).unwrap();

    match result {
        SolverResult::Converged { final_error, .. } => {
            assert!(final_error < 1e-6, "Expected small final error, got {}", final_error);
        }
        _ => panic!("Solver should have converged"),
    }

    let final_circle1 = solver.get_circle(circle1_id).unwrap();
    let final_circle2 = solver.get_circle(circle2_id).unwrap();

    assert!(
        (final_circle1.radius - final_circle2.radius).abs() < 1e-6,
        "Circles should have equal radii after solving: c1={}, c2={}",
        final_circle1.radius,
        final_circle2.radius
    );

    assert!(
        final_circle1.radius >= 3.0 && final_circle1.radius <= 10.0,
        "Final radius should be between 3.0 and 10.0, got {}",
        final_circle1.radius
    );

    println!("Initial radii: c1={}, c2={}", 10.0, 3.0);
    println!("Final radii: c1={}, c2={}", final_circle1.radius, final_circle2.radius);
}

#[test]
fn test_coincident_constraint() {
    let mut solver: ConstraintSolver<f64> = ConstraintSolver::new();
    let p1 = Point::new(String::from("p1"), 0.0, 0.0, false);
    let p2 = Point::new(String::from("p2"), 3.0, 5.0, false);

    solver.add_point(p1);
    solver.add_point(p2);

    solver
        .add_constraint(ConstraintType::Coincident(String::from("p1"), String::from("p2")))
        .unwrap();

    let result = solve(&mut solver).unwrap();

    match result {
        SolverResult::Converged { final_error, .. } => {
            assert!(final_error < 1e-6);
        }
        final_result => panic!("Solver should have converged, got: {:?}", final_result),
    }

    let point_a = solver.get_point(String::from("p1")).unwrap();
    let point_b = solver.get_point(String::from("p2")).unwrap();

    assert!(
        (point_a.x - point_b.x).abs() < 1e-6 && (point_a.y - point_b.y).abs() < 1e-4,
        "Points should be coincident"
    );
}

#[test]
fn test_equal_x_constraint() {
    let mut solver: ConstraintSolver<f64> = ConstraintSolver::new();

    let p1 = Point::new(String::from("p1"), 12.0, 7.0, false);
    solver.add_point(p1);

    solver
        .add_constraint(ConstraintType::EqualX(String::from("p1"), 5.0))
        .expect("Constraint should be added successfully");

    let result = solve(&mut solver).expect("Solver should solve successfully");

    match result {
        SolverResult::Converged { final_error, .. } => {
            assert!(final_error < 1e-6);
        }
        final_result => panic!("Solver should have converged, got: {final_result:?}"),
    }

    let point = solver.get_point(String::from("p1")).expect("Point p1 should exist");

    assert!((point.x - 5.0).abs() < 1e-6, "Point should have x-coordinate equal to 5.0");
}

#[test]
fn test_equal_y_constraint() {
    let mut solver: ConstraintSolver<f64> = ConstraintSolver::new();

    let p1 = Point::new(String::from("p1"), 7.0, 12.0, false);
    solver.add_point(p1);

    solver
        .add_constraint(ConstraintType::EqualY(String::from("p1"), 5.0))
        .expect("Constraint should be added successfully");

    let result = solve(&mut solver).expect("Solver should solve successfully");

    match result {
        SolverResult::Converged { final_error, .. } => {
            assert!(final_error < 1e-6);
        }
        final_result => panic!("Solver should have converged, got: {:?}", final_result),
    }

    let point = solver.get_point(String::from("p1")).expect("Point p1 should exist");

    assert!((point.y - 5.0).abs() < 1e-6, "Point should have y-coordinate equal to 5.0");
}

#[test]
fn test_fixed_points() {
    let mut solver: ConstraintSolver<f64> = ConstraintSolver::new();

    let fixed_point = Point::new(String::from("fixed"), 0.0, 0.0, true);
    let movable_point = Point::new(String::from("movable"), 3.0, 4.0, false);

    let fixed_id = solver.add_point(fixed_point);
    let movable_id = solver.add_point(movable_point);

    solver.add_constraint(ConstraintType::Vertical(fixed_id.clone(), movable_id.clone())).unwrap();

    match solve(&mut solver) {
        Ok(result) => {
            assert!(matches!(result, SolverResult::Converged { .. }));
        }
        Err(e) => panic!("Solver error: {}", e.message()),
    }

    let final_movable = solver.get_point(movable_id.clone()).unwrap();
    let final_fixed = solver.get_point(fixed_id.clone()).unwrap();

    assert!(
        (final_fixed.x - 0.0).abs() < 1e-6 && (final_fixed.y - 0.0).abs() < 1e-6,
        "Fixed point should remain at origin"
    );

    assert!(
        (final_movable.x - 0.0).abs() < 1e-6 && (final_movable.y - 4.0).abs() < 1e-6,
        "Movable point should be adjusted to y=4.0"
    );
}

#[test]
fn test_horizontal_constraint() {
    let mut solver: ConstraintSolver<f64> = ConstraintSolver::new();
    let p1 = Point::new(String::from("p1"), 0.0, 0.0, false);
    let p2 = Point::new(String::from("p2"), 1.0, 1.0, false);

    solver.add_point(p1);
    solver.add_point(p2);

    solver
        .add_constraint(ConstraintType::Horizontal(String::from("p1"), String::from("p2")))
        .unwrap();

    let result = solve(&mut solver).unwrap();

    match result {
        SolverResult::Converged { final_error, .. } => {
            assert!(final_error < 1e-6);
        }
        _ => panic!("Solver should have converged"),
    }

    let point_a = solver.get_point(String::from("p1")).unwrap();
    let point_b = solver.get_point(String::from("p2")).unwrap();

    assert!((point_a.y - point_b.y).abs() < 1e-4, "Points should be horizontally aligned");
}

#[test]
fn test_parallel_constraint() {
    let mut solver: ConstraintSolver<f64> = ConstraintSolver::new();

    let p1 = Point::new(String::from("p1"), 0.0, 0.0, false);
    let p2 = Point::new(String::from("p2"), 1.0, 1.0, false);
    solver.add_point(p1);
    solver.add_point(p2);

    let p3 = Point::new(String::from("p3"), 0.0, 1.0, false);
    let p4 = Point::new(String::from("p4"), 1.0, 5.0, false);
    solver.add_point(p3);
    solver.add_point(p4);

    solver
        .add_constraint(ConstraintType::Parallel(
            String::from("p1"),
            String::from("p2"),
            String::from("p3"),
            String::from("p4"),
        ))
        .expect("Constraint should be added successfully");
    let result = solve(&mut solver).expect("Solver should solve successfully");

    match result {
        SolverResult::Converged { final_error, .. } => {
            assert!(final_error < 1e-6);
        }
        _ => panic!("Solver should have converged"),
    }

    let start_a = solver.get_point(String::from("p1")).expect("Point p1 should exist");
    let end_a = solver.get_point(String::from("p2")).expect("Point p2 should exist");

    let start_b = solver.get_point(String::from("p3")).expect("Point p3 should exist");
    let end_b = solver.get_point(String::from("p4")).expect("Point p4 should exist");

    let get_angle = |start: &Point<f64>, end: &Point<f64>| {
        let dy = end.y - start.y;
        let dx = end.x - start.x;
        dy.atan2(dx)
    };

    assert!(
        (get_angle(start_a, end_a) - get_angle(start_b, end_b)).abs() < 1e-4,
        "Lines should be parallel"
    );
}

#[test]
fn test_point_on_line_constraint() {
    let mut solver: ConstraintSolver<f64> = ConstraintSolver::new();

    let p1 = Point::new("1".into(), 0.0, 0.0, true);
    let p2 = Point::new("2".into(), 0.0, 4.0, true);

    let p3 = Point::new("3".into(), 1.0, 1.0, false);

    solver.add_point(p1);
    solver.add_point(p2);
    solver.add_point(p3);

    solver
        .add_constraint(ConstraintType::PointOnLine("3".into(), "1".into(), "2".into()))
        .expect("Constraint should be added successfully");

    let result = solve(&mut solver).expect("Solver should solve successfully");

    match result {
        SolverResult::Converged { final_error, .. } => {
            assert!(final_error < 1e-3);
        }
        final_result => panic!("Solver should have converged, got: {final_result:?}"),
    }

    let constrained_point = solver.get_point("3".into()).expect("Point 3 should exist");

    let x = constrained_point.x;
    assert!(x.abs() < 0.001, "Expected point to be on the vertical line at x = 0, got x = {x}");
}

#[test]
fn test_vertical_constraint() {
    let mut solver: ConstraintSolver<f64> = ConstraintSolver::new();
    let p1 = Point::new(String::from("p1"), 0.0, 0.0, false);
    let p2 = Point::new(String::from("p2"), 1.0, 1.0, false);

    solver.add_point(p1);
    solver.add_point(p2);

    solver
        .add_constraint(ConstraintType::Vertical(String::from("p1"), String::from("p2")))
        .unwrap();

    let result = solve(&mut solver).unwrap();

    match result {
        SolverResult::Converged { final_error, .. } => {
            assert!(final_error < 1e-6);
        }
        _ => panic!("Solver should have converged"),
    }

    let point_a = solver.get_point(String::from("p1")).unwrap();
    let point_b = solver.get_point(String::from("p2")).unwrap();

    assert!((point_a.x - point_b.x).abs() < 1e-6, "Points should be vertically aligned");
}

#[test]
fn coincident_with_anchor() {
    let mut solver: ConstraintSolver<f64> = ConstraintSolver::new();
    solver.add_point(Point::new(String::from("p1"), 0.0, 0.0, true));
    solver.add_point(Point::new(String::from("p2"), 3.0, 5.0, false));
    solver
        .add_constraint(ConstraintType::Coincident(String::from("p1"), String::from("p2")))
        .unwrap();

    let result = solve(&mut solver).unwrap();

    assert!(matches!(result, SolverResult::Converged { .. }));
    let anchor = solver.get_point(String::from("p1")).unwrap();
    assert_eq!((anchor.x.to_bits(), anchor.y.to_bits()), (0.0f64.to_bits(), 0.0f64.to_bits()));
    let moved = solver.get_point(String::from("p2")).unwrap();
    assert!(moved.x.abs() < 1e-4 && moved.y.abs() < 1e-4, "p2 should reach the anchor");
}

#[test]
fn a_solved_sketch_converges_at_once_and_stays() {
    let mut solver: ConstraintSolver<f64> = ConstraintSolver::new();
    solver.add_point(Point::new(String::from("p1"), 2.0, 0.25, false));
    solver.add_point(Point::new(String::from("p2"), 2.0, 7.5, false));
    solver.add_circle(Circle::new(String::from("c1"), String::from("p1"), 1.5, false));
    solver.add_circle(Circle::new(String::from("c2"), String::from("p2"), 1.5, false));
    solver.add_constraint(ConstraintType::Vertical(String::from("p1"), String::from("p2"))).unwrap();
    solver.add_constraint(ConstraintType::EqualRadius(String::from("c1"), String::from("c2"))).unwrap();
    solver.add_constraint(ConstraintType::EqualX(String::from("p2"), 2.0)).unwrap();

    let result = solve(&mut solver).unwrap();

    match result {
        SolverResult::Converged { iterations, final_error, initial_error } => {
            assert_eq!(iterations, 1);
            assert_eq!(final_error, 0.0);
            assert_eq!(initial_error, 0.0);
        }
        other => panic!("Solver should have converged, got: {:?}", other),
    }
    let p1 = solver.get_point(String::from("p1")).unwrap();
    let p2 = solver.get_point(String::from("p2")).unwrap();
    assert_eq!((p1.x, p1.y, p2.x, p2.y), (2.0, 0.25, 2.0, 7.5));
    assert_eq!(solver.get_circle(String::from("c1")).unwrap().radius, 1.5);
    assert_eq!(solver.get_circle(String::from("c2")).unwrap().radius, 1.5);
}

#[test]
fn fixed_entities_are_bit_identical_after_a_solve() {
    let mut solver: ConstraintSolver<f64> = ConstraintSolver::new();
    let x = 0.1 + 0.2;
    let y = -1.0 / 3.0;
    let r = 2.0f64.sqrt();
    solver.add_point(Point::new(String::from("anchor"), x, y, true));
    solver.add_point(Point::new(String::from("p"), 3.0, 5.0, false));
    solver.add_circle(Circle::new(String::from("still"), String::from("anchor"), r, true));
    solver.add_circle(Circle::new(String::from("loose"), String::from("p"), 9.0, false));
    solver.add_constraint(ConstraintType::Coincident(String::from("anchor"), String::from("p"))).unwrap();
    solver.add_constraint(ConstraintType::EqualRadius(String::from("still"), String::from("loose"))).unwrap();

    let result = solve(&mut solver).unwrap();

    assert!(matches!(result, SolverResult::Converged { .. }));
    let anchor = solver.get_point(String::from("anchor")).unwrap();
    assert_eq!((anchor.x.to_bits(), anchor.y.to_bits()), (x.to_bits(), y.to_bits()));
    assert!(anchor.fixed);
    let still = solver.get_circle(String::from("still")).unwrap();
    assert_eq!(still.radius.to_bits(), r.to_bits());
    let p = solver.get_point(String::from("p")).unwrap();
    assert!((p.x - x).abs() < 1e-6 && (p.y - y).abs() < 1e-6);
    let loose = solver.get_circle(String::from("loose")).unwrap();
    assert!((loose.radius - r).abs() < 1e-6);
}

#[test]
fn constraints_that_contradict_each_other_do_not_converge() {
    let mut solver: ConstraintSolver<f64> = ConstraintSolver::new();
    solver.add_point(Point::new(String::from("p"), 0.25, 0.0, false));
    solver.add_constraint(ConstraintType::EqualX(String::from("p"), 0.0)).unwrap();
    solver.add_constraint(ConstraintType::EqualX(String::from("p"), 1.0)).unwrap();

    let result = solve(&mut solver).unwrap();

    match result {
        SolverResult::MaxIterationsReached { iterations, final_error, initial_error } => {
            assert!(iterations <= 100);
            assert!((final_error - 0.5f64.sqrt()).abs() < 1e-6, "final error {}", final_error);
            assert!((initial_error - (0.0625f64 + 0.5625).sqrt()).abs() < 1e-12);
        }
        other => panic!("Solver should not have converged, got: {:?}", other),
    }
    let p = solver.get_point(String::from("p")).unwrap();
    assert!((p.x - 0.5).abs() < 1e-6, "the point should rest half way, at x = {}", p.x);
}

#[test]
fn a_sketch_with_everything_fixed_ends_at_the_radius_floor() {
    let mut solver: ConstraintSolver<f64> = ConstraintSolver::new();
    solver.add_point(Point::new(String::from("a"), 0.0, 0.0, true));
    solver.add_point(Point::new(String::from("b"), 1.0, 3.0, true));
    solver.add_constraint(ConstraintType::Vertical(String::from("a"), String::from("b"))).unwrap();

    let mut run = solver.begin_solve().unwrap();
    let constraints = solver.get_constraints().to_vec();
    let asked = drive(&mut run, &constraints).asked;
    let result = solver.finish_solve(run).unwrap();

    match result {
        SolverResult::MaxIterationsReached { iterations, final_error, initial_error } => {
            assert!(iterations <= 100);
            assert_eq!(final_error, 1.0);
            assert_eq!(initial_error, 1.0);
        }
        other => panic!("Solver should not have converged, got: {:?}", other),
    }
    assert!(matches!(asked.first(), Some(SolverAction::Evaluate)));
    assert!(matches!(asked.last(), Some(SolverAction::Finish(_))));
    let b = solver.get_point(String::from("b")).unwrap();
    assert_eq!((b.x, b.y), (1.0, 3.0));
}

#[test]
fn a_solve_asks_in_turn_for_residual_step_and_judgement() {
    let mut solver: ConstraintSolver<f64> = ConstraintSolver::new();
    solver.add_point(Point::new(String::from("p1"), 12.0, 7.0, false));
    solver.add_constraint(ConstraintType::EqualX(String::from("p1"), 5.0)).unwrap();

    let mut run = solver.begin_solve().unwrap();
    let constraints = solver.get_constraints().to_vec();
    let asked = drive(&mut run, &constraints).asked;

    assert!(asked.len() >= 4);
    for (i, action) in asked.iter().enumerate() {
        if i + 1 == asked.len() {
            assert!(matches!(action, SolverAction::Finish(SolverResult::Converged { .. })));
        } else {
            match i % 3 {
                0 => assert!(matches!(action, SolverAction::Evaluate)),
                1 => assert!(matches!(action, SolverAction::ProposeStep { .. })),
                _ => assert!(matches!(action, SolverAction::JudgeStep)),
            }
        }
    }
    let radii: Vec<f64> = asked
        .iter()
        .filter_map(|a| match a {
            SolverAction::ProposeStep { radius } => Some(radius_value(*radius)),
            _ => None,
        })
        .collect();
    assert_eq!(radii[0], 1.0);
    assert!(radii.iter().all(|r| *r <= 10.0 && *r >= 1e-8));
}

#[test]
fn an_unknown_reference_is_refused_when_the_constraint_is_added() {
    let mut solver: ConstraintSolver<f64> = ConstraintSolver::new();
    solver.add_point(Point::new(String::from("p1"), 0.0, 0.0, false));
    assert_eq!(
        solver.add_constraint(ConstraintType::Coincident(String::from("p1"), String::from("p9"))),
        Err(SolverError::UnknownReference)
    );
    assert_eq!(
        solver.add_constraint(ConstraintType::Tangent(String::from("p1"), String::from("p1"))),
        Err(SolverError::Unimplemented)
    );
    let result = solve(&mut solver).unwrap();
    assert!(matches!(result, SolverResult::Converged { iterations: 1, .. }));
}

fn sample_sketches() -> Vec<ConstraintSolver<f64>> {
    let mut sketches = Vec::new();

    let mut solver: ConstraintSolver<f64> = ConstraintSolver::new();
    solver.add_point(Point::new(String::from("p1"), 0.0, 0.0, false));
    solver.add_point(Point::new(String::from("p2"), 1.0, 1.0, false));
    solver.add_point(Point::new(String::from("p3"), 0.0, 1.0, false));
    solver.add_point(Point::new(String::from("p4"), 1.0, 5.0, false));
    solver
        .add_constraint(ConstraintType::Parallel(
            String::from("p1"),
            String::from("p2"),
            String::from("p3"),
            String::from("p4"),
        ))
        .unwrap();
    sketches.push(solver);

    let mut solver: ConstraintSolver<f64> = ConstraintSolver::new();
    solver.add_point(Point::new(String::from("a"), 0.0, 0.0, true));
    solver.add_point(Point::new(String::from("b"), 0.0, 4.0, true));
    solver.add_point(Point::new(String::from("p"), 1.0, 1.0, false));
    solver
        .add_constraint(ConstraintType::PointOnLine(
            String::from("p"),
            String::from("a"),
            String::from("b"),
        ))
        .unwrap();
    sketches.push(solver);

    let mut solver: ConstraintSolver<f64> = ConstraintSolver::new();
    solver.add_point(Point::new(String::from("fixed"), 0.0, 0.0, true));
    solver.add_point(Point::new(String::from("movable"), 3.0, 4.0, false));
    solver.add_point(Point::new(String::from("far"), -20.0, 30.0, false));
    solver.add_circle(Circle::new(String::from("c1"), String::from("fixed"), 10.0, false));
    solver.add_circle(Circle::new(String::from("c2"), String::from("far"), 3.0, false));
    solver.add_constraint(ConstraintType::Vertical(String::from("fixed"), String::from("movable"))).unwrap();
    solver.add_constraint(ConstraintType::Coincident(String::from("movable"), String::from("far"))).unwrap();
    solver.add_constraint(ConstraintType::EqualRadius(String::from("c1"), String::from("c2"))).unwrap();
    solver.add_constraint(ConstraintType::EqualY(String::from("far"), 2.0)).unwrap();
    sketches.push(solver);

    let mut solver: ConstraintSolver<f64> = ConstraintSolver::new();
    solver.add_point(Point::new(String::from("p"), 0.25, 0.0, false));
    solver.add_constraint(ConstraintType::EqualX(String::from("p"), 0.0)).unwrap();
    solver.add_constraint(ConstraintType::EqualX(String::from("p"), 1.0)).unwrap();
    sketches.push(solver);

    sketches
}

#[test]
fn every_accepted_step_does_not_increase_the_residual() {
    for mut solver in sample_sketches() {
        let mut run = solver.begin_solve().unwrap();
        let constraints = solver.get_constraints().to_vec();
        let trace = drive(&mut run, &constraints);
        assert!(!trace.steps.is_empty());
        for (before, after, quality) in &trace.steps {
            if *quality != StepQuality::Rejected {
                assert!(after <= before, "an accepted step went from {} to {}", before, after);
            }
        }
        solver.finish_solve(run).unwrap();
    }
}

#[test]
fn a_larger_sketch_converges_with_its_anchor_in_place() {
    let mut solver = sample_sketches().remove(2);
    let result = solve(&mut solver).unwrap();
    match result {
        SolverResult::Converged { iterations, final_error, initial_error } => {
            assert!(iterations >= 2 && iterations <= 100);
            assert!(final_error < 1e-6);
            assert!(initial_error > 1.0);
        }
        other => panic!("Solver should have converged, got: {:?}", other),
    }
    let fixed = solver.get_point(String::from("fixed")).unwrap();
    assert_eq!((fixed.x, fixed.y), (0.0, 0.0));
    let movable = solver.get_point(String::from("movable")).unwrap();
    let far = solver.get_point(String::from("far")).unwrap();
    assert!(movable.x.abs() < 1e-6);
    assert!((movable.x - far.x).abs() < 1e-6 && (movable.y - far.y).abs() < 1e-6);
    assert!((far.y - 2.0).abs() < 1e-6);
    let c1 = solver.get_circle(String::from("c1")).unwrap();
    let c2 = solver.get_circle(String::from("c2")).unwrap();
    assert!((c1.radius - c2.radius).abs() < 1e-6);
}

#[test]
fn jacobian_matches_finite_differences() {
    let mut pm: ParameterManager<f64> = ParameterManager::new();
    let points = [
        ("p1", 0.3, -1.2),
        ("p2", 2.1, 0.7),
        ("p3", -0.4, 1.9),
        ("p4", 1.6, 3.3),
        ("q", 1.0, 0.5),
    ];
    for (id, x, y) in points {
        pm.register_entity(id.to_string(), EntityType::Point, &Point::new(id.to_string(), x, y, false))
            .unwrap();
    }
    for (id, r) in [("c1", 2.5), ("c2", 0.75)] {
        let circle = Circle::new(id.to_string(), "p1".to_string(), r, false);
        pm.register_entity(id.to_string(), EntityType::Circle, &circle).unwrap();
    }
    let kinds: Vec<ConstraintType<f64>> = vec![
        ConstraintType::Vertical("p1".into(), "p2".into()),
        ConstraintType::Horizontal("p3".into(), "p2".into()),
        ConstraintType::EqualX("p4".into(), 0.25),
        ConstraintType::EqualY("p4".into(), -0.5),
        ConstraintType::Coincident("p2".into(), "p3".into()),
        ConstraintType::Parallel("p1".into(), "p2".into(), "p3".into(), "p4".into()),
        // the foot of `q` lies inside the segment from p1 to p2
        ConstraintType::PointOnLine("q".into(), "p1".into(), "p2".into()),
        // the foot of `p4` lies past p2, so the nearest point is p2 itself
        ConstraintType::PointOnLine("p4".into(), "p1".into(), "p2".into()),
        ConstraintType::EqualRadius("c1".into(), "c2".into()),
    ];
    let constraints: Vec<AnyConstraint<f64>> =
        kinds.into_iter().map(|k| acs::create_constraint(k).unwrap()).collect();
    let layout = SystemLayout::build(&constraints, &pm).unwrap();
    let base = pm.snapshot();
    let (residual, jacobian) = assemble(&layout, &constraints, &base);
    assert_eq!(jacobian.nrows(), 10);
    assert_eq!(jacobian.ncols(), 12);
    let h = 1e-6;
    for column in 0..base.len() {
        let mut moved = base.clone();
        moved[column] += h;
        let (shifted, _) = assemble(&layout, &constraints, &moved);
        for row in 0..residual.len() {
            let slope = (shifted[row] - residual[row]) / h;
            assert!(
                (jacobian[(row, column)] - slope).abs() < 1e-4,
                "row {} column {}: {} against {}",
                row,
                column,
                jacobian[(row, column)],
                slope
            );
        }
    }
}
