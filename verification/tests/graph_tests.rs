//! Fail-fast graph construction: malformed nodes are refused with the
//! configuration error the validator promises, and accepted nodes land at
//! the index the arena promises.

use planet_generator::graph::{Graph, GraphError, Node, MAX_OCTAVES};

fn b(x: f64) -> u64 {
    x.to_bits()
}

fn fbm(freq: f64, pers: f64, lac: f64, oct: usize) -> Node {
    Node::Fbm {
        seed: 7,
        frequency: b(freq),
        persistence: b(pers),
        lacunarity: b(lac),
        octaves: oct,
    }
}

#[test]
fn well_formed_source_is_accepted_at_next_index() {
    let mut g = Graph::new();
    assert_eq!(g.try_push(fbm(0.4, 0.5, 2.2, 14)), Ok(0));
    assert_eq!(g.try_push(fbm(1.75, 0.5, 2.2, 16)), Ok(1));
    assert_eq!(g.len(), 2);
}

#[test]
fn zero_octaves_are_refused() {
    let mut g = Graph::new();
    assert_eq!(g.try_push(fbm(0.4, 0.5, 2.2, 0)), Err(GraphError::OctavesOutOfRange));
    assert_eq!(g.len(), 0);
}

#[test]
fn too_many_octaves_are_refused() {
    let mut g = Graph::new();
    assert_eq!(
        g.try_push(fbm(0.4, 0.5, 2.2, MAX_OCTAVES + 1)),
        Err(GraphError::OctavesOutOfRange)
    );
}

#[test]
fn nonpositive_frequency_is_refused() {
    let mut g = Graph::new();
    assert_eq!(g.try_push(fbm(0.0, 0.5, 2.2, 4)), Err(GraphError::InvalidFrequency));
    assert_eq!(g.try_push(fbm(-0.4, 0.5, 2.2, 4)), Err(GraphError::InvalidFrequency));
    assert_eq!(g.try_push(fbm(f64::NAN, 0.5, 2.2, 4)), Err(GraphError::InvalidFrequency));
    assert_eq!(g.try_push(fbm(f64::INFINITY, 0.5, 2.2, 4)), Err(GraphError::InvalidFrequency));
}

#[test]
fn nonpositive_persistence_and_lacunarity_are_refused() {
    let mut g = Graph::new();
    assert_eq!(g.try_push(fbm(0.4, -0.5, 2.2, 4)), Err(GraphError::InvalidPersistence));
    assert_eq!(g.try_push(fbm(0.4, 0.5, f64::NAN, 4)), Err(GraphError::InvalidLacunarity));
}

#[test]
fn inputs_must_point_at_earlier_nodes() {
    let mut g = Graph::new();
    assert_eq!(g.try_push(Node::Cache { input: 0 }), Err(GraphError::InputOutOfRange));
    assert_eq!(g.try_push(fbm(0.4, 0.5, 2.2, 4)), Ok(0));
    assert_eq!(g.try_push(Node::Cache { input: 1 }), Err(GraphError::InputOutOfRange));
    assert_eq!(g.try_push(Node::Cache { input: 0 }), Ok(1));
    assert_eq!(g.try_push(Node::Min { a: 0, b: 2 }), Err(GraphError::InputOutOfRange));
    assert_eq!(g.try_push(Node::Min { a: 0, b: 1 }), Ok(2));
}

#[test]
fn curve_needs_at_least_four_points() {
    let mut g = Graph::new();
    assert_eq!(g.try_push(fbm(0.4, 0.5, 2.2, 4)), Ok(0));
    let short = vec![(b(-1.0), b(-1.0)), (b(0.0), b(0.5)), (b(1.0), b(1.0))];
    assert_eq!(
        g.try_push(Node::Curve { input: 0, control_points: short }),
        Err(GraphError::TooFewControlPoints)
    );
}

#[test]
fn curve_inputs_must_strictly_increase() {
    let mut g = Graph::new();
    assert_eq!(g.try_push(fbm(0.4, 0.5, 2.2, 4)), Ok(0));
    let unsorted = vec![
        (b(-1.0), b(-1.0)),
        (b(0.5), b(0.5)),
        (b(0.25), b(0.25)),
        (b(1.0), b(1.0)),
    ];
    assert_eq!(
        g.try_push(Node::Curve { input: 0, control_points: unsorted }),
        Err(GraphError::ControlPointsNotIncreasing)
    );
    let repeated = vec![
        (b(-1.0), b(-1.0)),
        (b(0.25), b(0.5)),
        (b(0.25), b(0.25)),
        (b(1.0), b(1.0)),
    ];
    assert_eq!(
        g.try_push(Node::Curve { input: 0, control_points: repeated }),
        Err(GraphError::ControlPointsNotIncreasing)
    );
    let sorted = vec![
        (b(-1.0), b(-1.0)),
        (b(0.25), b(0.5)),
        (b(0.5), b(0.25)),
        (b(1.0), b(1.0)),
    ];
    assert_eq!(g.try_push(Node::Curve { input: 0, control_points: sorted }), Ok(1));
}

#[test]
fn negative_zero_counts_as_zero_in_curve_order() {
    let mut g = Graph::new();
    assert_eq!(g.try_push(fbm(0.4, 0.5, 2.2, 4)), Ok(0));
    let with_neg_zero = vec![
        (b(-1.0), b(-1.0)),
        (b(-0.0), b(-0.75)),
        (b(0.5), b(-0.25)),
        (b(1.0), b(1.0)),
    ];
    assert_eq!(g.try_push(Node::Curve { input: 0, control_points: with_neg_zero }), Ok(1));
    let zero_twice = vec![
        (b(-1.0), b(-1.0)),
        (b(-0.0), b(-0.75)),
        (b(0.0), b(-0.5)),
        (b(1.0), b(1.0)),
    ];
    assert_eq!(
        g.try_push(Node::Curve { input: 0, control_points: zero_twice }),
        Err(GraphError::ControlPointsNotIncreasing)
    );
}

#[test]
fn terrace_needs_two_increasing_levels() {
    let mut g = Graph::new();
    assert_eq!(g.try_push(fbm(0.4, 0.5, 2.2, 4)), Ok(0));
    assert_eq!(
        g.try_push(Node::Terrace { input: 0, control_levels: vec![b(0.0)] }),
        Err(GraphError::TooFewControlPoints)
    );
    assert_eq!(
        g.try_push(Node::Terrace { input: 0, control_levels: vec![b(0.5), b(-0.5)] }),
        Err(GraphError::ControlPointsNotIncreasing)
    );
    assert_eq!(
        g.try_push(Node::Terrace { input: 0, control_levels: vec![b(-1.0), b(-0.375), b(1.0)] }),
        Ok(1)
    );
}

#[test]
fn clamp_bounds_must_be_ordered() {
    let mut g = Graph::new();
    assert_eq!(g.try_push(fbm(0.4, 0.5, 2.2, 4)), Ok(0));
    assert_eq!(
        g.try_push(Node::Clamp { input: 0, lower: b(1.0), upper: b(-1.0) }),
        Err(GraphError::InvalidBounds)
    );
    assert_eq!(g.try_push(Node::Clamp { input: 0, lower: b(-1.0), upper: b(1.0) }), Ok(1));
}

#[test]
fn select_falloff_must_not_be_negative() {
    let mut g = Graph::new();
    assert_eq!(g.try_push(fbm(0.4, 0.5, 2.2, 4)), Ok(0));
    assert_eq!(g.try_push(Node::Cache { input: 0 }), Ok(1));
    assert_eq!(g.try_push(Node::Cache { input: 0 }), Ok(2));
    assert_eq!(
        g.try_push(Node::Select {
            a: 0,
            b: 1,
            control: 2,
            lower: b(0.0),
            upper: b(1.0),
            falloff: b(-0.25),
        }),
        Err(GraphError::InvalidBounds)
    );
    assert_eq!(
        g.try_push(Node::Select {
            a: 0,
            b: 1,
            control: 2,
            lower: b(0.0),
            upper: b(1.0),
            falloff: b(0.25),
        }),
        Ok(3)
    );
}

#[test]
fn non_finite_constant_is_refused() {
    let mut g = Graph::new();
    assert_eq!(
        g.try_push(Node::Constant { value: b(f64::NAN) }),
        Err(GraphError::NonFiniteParameter)
    );
    assert_eq!(g.try_push(Node::Constant { value: b(-1.0) }), Ok(0));
}
