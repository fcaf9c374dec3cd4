use acs::bindings::types::{
    ConstraintJson, PrimitiveJson, SolverRequest, SolverResponse, SolverResultJson,
};
use acs::{Arc, Circle, ConstraintType, Line, Point, SolverError, SolverResult};

#[test]
fn primitives_become_their_variant() {
    let point = PrimitiveJson::from(Point::new("p".to_string(), 1.0, 2.0, true));
    assert!(matches!(point, PrimitiveJson::Point { ref id, x, y, fixed } if id == "p" && x == 1.0 && y == 2.0 && fixed));
    let circle = PrimitiveJson::from(Circle::new("c".to_string(), "p".to_string(), 3.0, false));
    assert!(matches!(circle, PrimitiveJson::Circle { ref id, ref center, radius, fixed } if id == "c" && center == "p" && radius == 3.0 && !fixed));
    let line: PrimitiveJson<f64> =
        PrimitiveJson::from(Line::new("l".to_string(), "a".to_string(), "b".to_string()));
    assert!(matches!(line, PrimitiveJson::Line { ref id, ref start, ref end } if id == "l" && start == "a" && end == "b"));
    let arc = PrimitiveJson::from(Arc::new("a".to_string(), "p".to_string(), 1.0, 0.5, 1.5, true));
    assert!(matches!(arc, PrimitiveJson::Arc { ref id, radius, start_angle, end_angle, fixed, .. } if id == "a" && radius == 1.0 && start_angle == 0.5 && end_angle == 1.5 && fixed));
}

#[test]
fn a_variant_becomes_its_primitive_and_no_other() {
    let json = PrimitiveJson::Point { id: "p".to_string(), x: 1.0, y: 2.0, fixed: false };
    let point = Point::try_from(json.clone()).unwrap();
    assert_eq!((point.id.as_str(), point.x, point.y, point.fixed), ("p", 1.0, 2.0, false));
    assert!(matches!(Circle::try_from(json.clone()), Err(SolverError::InvalidOperation)));
    assert!(matches!(Line::try_from(json.clone()), Err(SolverError::InvalidOperation)));
    assert!(matches!(Arc::try_from(json), Err(SolverError::InvalidOperation)));

    let json = PrimitiveJson::Circle { id: "c".to_string(), center: "p".to_string(), radius: 2.0, fixed: true };
    let circle = Circle::try_from(json.clone()).unwrap();
    assert_eq!((circle.id.as_str(), circle.center.as_str(), circle.radius, circle.fixed), ("c", "p", 2.0, true));
    assert!(matches!(Point::try_from(json), Err(SolverError::InvalidOperation)));

    let json: PrimitiveJson<f64> =
        PrimitiveJson::Line { id: "l".to_string(), start: "a".to_string(), end: "b".to_string() };
    let line = Line::try_from(json.clone()).unwrap();
    assert_eq!((line.id.as_str(), line.start.as_str(), line.end.as_str()), ("l", "a", "b"));
    assert!(matches!(Arc::try_from(json), Err(SolverError::InvalidOperation)));

    let json = PrimitiveJson::Arc {
        id: "a".to_string(),
        center: "p".to_string(),
        radius: 1.0,
        start_angle: 0.25,
        end_angle: 0.75,
        fixed: false,
    };
    let arc = Arc::try_from(json.clone()).unwrap();
    assert_eq!((arc.radius, arc.start_angle, arc.end_angle, arc.fixed), (1.0, 0.25, 0.75, false));
    assert!(matches!(Line::try_from(json), Err(SolverError::InvalidOperation)));
}

#[test]
fn constraints_go_to_named_fields_and_back() {
    let all: Vec<ConstraintType<f64>> = vec![
        ConstraintType::Vertical("a".into(), "b".into()),
        ConstraintType::Horizontal("a".into(), "b".into()),
        ConstraintType::Parallel("a".into(), "b".into(), "c".into(), "d".into()),
        ConstraintType::EqualX("a".into(), 1.5),
        ConstraintType::EqualY("a".into(), 2.5),
        ConstraintType::Coincident("a".into(), "b".into()),
        ConstraintType::PointOnLine("p".into(), "a".into(), "b".into()),
        ConstraintType::EqualRadius("c".into(), "d".into()),
        ConstraintType::FixedRadius("c".into(), 3.5),
        ConstraintType::PointOnCircle("p".into(), "c".into()),
        ConstraintType::Tangent("c".into(), "d".into()),
    ];
    for constraint in all {
        let json = ConstraintJson::from(constraint.clone());
        let back = ConstraintType::try_from(json).unwrap();
        assert_eq!(format!("{:?}", back), format!("{:?}", constraint));
    }
    let json = ConstraintJson::from(ConstraintType::Parallel::<f64>("a".into(), "b".into(), "c".into(), "d".into()));
    assert!(matches!(json, ConstraintJson::Parallel { ref point_a, ref point_b, ref point_c, ref point_d } if point_a == "a" && point_b == "b" && point_c == "c" && point_d == "d"));
    let json = ConstraintJson::from(ConstraintType::PointOnLine::<f64>("p".into(), "a".into(), "b".into()));
    assert!(matches!(json, ConstraintJson::PointOnLine { ref point, ref point_line_a, ref point_line_b } if point == "p" && point_line_a == "a" && point_line_b == "b"));
    let json = ConstraintJson::from(ConstraintType::FixedRadius("c".into(), 3.5));
    assert!(matches!(json, ConstraintJson::FixedRadius { ref circle, radius } if circle == "c" && radius == 3.5));
}

#[test]
fn results_say_whether_the_solve_converged() {
    let done = SolverResultJson::from(SolverResult::Converged {
        iterations: 3,
        final_error: 0.5,
        initial_error: 4.0,
    });
    assert_eq!((done.converged, done.iterations, done.final_error, done.initial_error), (true, 3, 0.5, 4.0));
    let tired = SolverResultJson::from(SolverResult::MaxIterationsReached {
        iterations: 100,
        final_error: 2.0,
        initial_error: 4.0,
    });
    assert_eq!((tired.converged, tired.iterations, tired.final_error, tired.initial_error), (false, 100, 2.0, 4.0));
}

#[test]
fn requests_and_responses_carry_their_parts() {
    let request = SolverRequest {
        primitives: vec![PrimitiveJson::Point { id: "p".to_string(), x: 1.0, y: 2.0, fixed: false }],
        constraints: vec![ConstraintJson::EqualX { point: "p".to_string(), x: 0.0 }],
    };
    assert_eq!(request.primitives.len(), 1);
    assert_eq!(request.constraints.len(), 1);
    let response = SolverResponse {
        primitives: request.primitives.clone(),
        result: SolverResultJson { converged: true, iterations: 2, final_error: 0.0, initial_error: 1.0 },
    };
    assert!(response.result.converged);
    assert_eq!(response.primitives.len(), 1);
}
