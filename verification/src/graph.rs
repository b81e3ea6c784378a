//! The elevation node graph.
//!
//! A graph is an arena of nodes; a node refers to its inputs by the indices
//! of earlier nodes, so every graph is acyclic by construction and shared
//! subgraphs are shared by index, never duplicated.  Numeric parameters are
//! binary64 bit patterns (see [`crate::bits`]); each noise-generating node
//! carries the seed its primitive runs with.
//!
//! Construction is fail-fast: [`Graph::try_push`] checks a node's parameters
//! against [`check_node`] and refuses a malformed node with the exact
//! configuration error, leaving the graph unchanged.

use vstd::prelude::*;

verus! {

use crate::bits::{is_finite, rank, finite_bits, lt_bits, le_bits, SIGN_BIT};

/// The largest octave count the noise backend accepts.
pub const MAX_OCTAVES: usize = 32;

/// One node of an elevation graph.
///
/// Nodes that take other nodes as inputs hold the indices of earlier nodes
/// in the same graph.  All `u64` parameters are binary64 bit patterns.
#[derive(Debug)]
pub enum Node {
    /// A constant signal.
    Constant { value: u64 },
    /// Fractal-sum noise: `octaves` layers of coherent noise, each layer's
    /// frequency scaled by `lacunarity` and amplitude by `persistence`.
    Fbm { seed: u32, frequency: u64, persistence: u64, lacunarity: u64, octaves: usize },
    /// Ridged-multifractal noise: fractal noise with each layer folded into
    /// sharp ridges.
    RidgedMulti { seed: u32, frequency: u64, lacunarity: u64, octaves: usize },
    /// Billow noise: fractal noise with each layer folded into rounded
    /// bumps.
    Billow { seed: u32, frequency: u64, persistence: u64, lacunarity: u64, octaves: usize },
    /// Cellular noise over a jittered feature-point lattice; with
    /// `range_enabled` it emits the distance to the nearest feature.
    Worley { seed: u32, frequency: u64, displacement: u64, range_enabled: bool },
    /// Piecewise-cubic remap of the input through `(input, output)` control
    /// points with strictly increasing inputs.
    Curve { input: usize, control_points: Vec<(u64, u64)> },
    /// Snap-to-level terracing through strictly increasing control levels.
    Terrace { input: usize, control_levels: Vec<u64> },
    /// Restriction of the input to `[lower, upper]`.
    Clamp { input: usize, lower: u64, upper: u64 },
    /// `input * scale + bias`.
    ScaleBias { input: usize, scale: u64, bias: u64 },
    /// Power-curve remap of the input from `[-1, 1]` through the exponent
    /// and back.
    Exponent { input: usize, exponent: u64 },
    /// Pointwise minimum of two inputs.
    Min { a: usize, b: usize },
    /// Pointwise maximum of two inputs.
    Max { a: usize, b: usize },
    /// Pointwise sum of two inputs.
    Add { a: usize, b: usize },
    /// Pointwise product of two inputs.
    Multiply { a: usize, b: usize },
    /// Linear cross-fade of `a` and `b` driven by the control signal.
    Blend { a: usize, b: usize, control: usize },
    /// Chooses `a` below the bounds and `b` inside them, with a smooth
    /// transition of width `falloff` around each bound.
    Select { a: usize, b: usize, control: usize, lower: u64, upper: u64, falloff: u64 },
    /// Domain warp: displaces the sampling coordinate with auxiliary
    /// fractal noise of the given power before evaluating the input.
    Turbulence { input: usize, seed: u32, frequency: u64, power: u64, roughness: usize },
    /// Memoization of the input's most recent (coordinate, value) pair.
    Cache { input: usize },
}

/// A configuration error, reported when a malformed node is refused at
/// construction time.
#[derive(Clone, Copy, Debug, PartialEq, Eq, Structural)]
pub enum GraphError {
    /// A frequency was not a finite positive value.
    InvalidFrequency,
    /// A persistence was not a finite positive value.
    InvalidPersistence,
    /// A lacunarity was not a finite positive value.
    InvalidLacunarity,
    /// An octave or roughness count was zero or above [`MAX_OCTAVES`].
    OctavesOutOfRange,
    /// A numeric parameter was not finite.
    NonFiniteParameter,
    /// An exponent was not a finite positive value.
    InvalidExponent,
    /// An input index did not refer to an earlier node.
    InputOutOfRange,
    /// A curve or terrace had fewer control points than it needs.
    TooFewControlPoints,
    /// Control points were not strictly increasing.
    ControlPointsNotIncreasing,
    /// A lower bound was above the matching upper bound, or a falloff was
    /// negative.
    InvalidBounds,
}

/// True if `b` encodes a finite value strictly above zero.
pub open spec fn positive_param(b: u64) -> bool {
    is_finite(b) && rank(b) > 0
}

/// True if the ranks of `s` are strictly increasing.
pub open spec fn strictly_increasing(s: Seq<u64>) -> bool {
    forall|i: int, j: int| 0 <= i < j < s.len() ==> rank(s[i]) < rank(s[j])
}

/// True if every pattern of `s` is finite.
pub open spec fn all_finite(s: Seq<u64>) -> bool {
    forall|i: int| 0 <= i < s.len() ==> is_finite(#[trigger] s[i])
}

/// The inputs of a curve's control points.
pub open spec fn curve_inputs(pts: Seq<(u64, u64)>) -> Seq<u64> {
    pts.map_values(|p: (u64, u64)| p.0)
}

/// The outputs of a curve's control points.
pub open spec fn curve_outputs(pts: Seq<(u64, u64)>) -> Seq<u64> {
    pts.map_values(|p: (u64, u64)| p.1)
}

/// The definitive validity check for a node standing at index `idx`: the
/// error a well-behaved constructor reports for it, or `Ok` if the node is
/// acceptable there.
pub open spec fn check_node(n: &Node, idx: nat) -> Result<(), GraphError> {
    match n {
        Node::Constant { value } => if !is_finite(*value) {
            Err(GraphError::NonFiniteParameter)
        } else {
            Ok(())
        },
        Node::Fbm { frequency, persistence, lacunarity, octaves, .. } => if !positive_param(
            *frequency,
        ) {
            Err(GraphError::InvalidFrequency)
        } else if !positive_param(*persistence) {
            Err(GraphError::InvalidPersistence)
        } else if !positive_param(*lacunarity) {
            Err(GraphError::InvalidLacunarity)
        } else if !(1 <= *octaves <= MAX_OCTAVES) {
            Err(GraphError::OctavesOutOfRange)
        } else {
            Ok(())
        },
        Node::RidgedMulti { frequency, lacunarity, octaves, .. } => if !positive_param(
            *frequency,
        ) {
            Err(GraphError::InvalidFrequency)
        } else if !positive_param(*lacunarity) {
            Err(GraphError::InvalidLacunarity)
        } else if !(1 <= *octaves <= MAX_OCTAVES) {
            Err(GraphError::OctavesOutOfRange)
        } else {
            Ok(())
        },
        Node::Billow { frequency, persistence, lacunarity, octaves, .. } => if !positive_param(
            *frequency,
        ) {
            Err(GraphError::InvalidFrequency)
        } else if !positive_param(*persistence) {
            Err(GraphError::InvalidPersistence)
        } else if !positive_param(*lacunarity) {
            Err(GraphError::InvalidLacunarity)
        } else if !(1 <= *octaves <= MAX_OCTAVES) {
            Err(GraphError::OctavesOutOfRange)
        } else {
            Ok(())
        },
        Node::Worley { frequency, displacement, .. } => if !positive_param(*frequency) {
            Err(GraphError::InvalidFrequency)
        } else if !is_finite(*displacement) {
            Err(GraphError::NonFiniteParameter)
        } else {
            Ok(())
        },
        Node::Curve { input, control_points } => if !(*input < idx) {
            Err(GraphError::InputOutOfRange)
        } else if control_points@.len() < 4 {
            Err(GraphError::TooFewControlPoints)
        } else if !(all_finite(curve_inputs(control_points@)) && all_finite(
            curve_outputs(control_points@),
        )) {
            Err(GraphError::NonFiniteParameter)
        } else if !strictly_increasing(curve_inputs(control_points@)) {
            Err(GraphError::ControlPointsNotIncreasing)
        } else {
            Ok(())
        },
        Node::Terrace { input, control_levels } => if !(*input < idx) {
            Err(GraphError::InputOutOfRange)
        } else if control_levels@.len() < 2 {
            Err(GraphError::TooFewControlPoints)
        } else if !all_finite(control_levels@) {
            Err(GraphError::NonFiniteParameter)
        } else if !strictly_increasing(control_levels@) {
            Err(GraphError::ControlPointsNotIncreasing)
        } else {
            Ok(())
        },
        Node::Clamp { input, lower, upper } => if !(*input < idx) {
            Err(GraphError::InputOutOfRange)
        } else if !(is_finite(*lower) && is_finite(*upper)) {
            Err(GraphError::NonFiniteParameter)
        } else if !(rank(*lower) <= rank(*upper)) {
            Err(GraphError::InvalidBounds)
        } else {
            Ok(())
        },
        Node::ScaleBias { input, scale, bias } => if !(*input < idx) {
            Err(GraphError::InputOutOfRange)
        } else if !(is_finite(*scale) && is_finite(*bias)) {
            Err(GraphError::NonFiniteParameter)
        } else {
            Ok(())
        },
        Node::Exponent { input, exponent } => if !(*input < idx) {
            Err(GraphError::InputOutOfRange)
        } else if !positive_param(*exponent) {
            Err(GraphError::InvalidExponent)
        } else {
            Ok(())
        },
        Node::Min { a, b } => if !(*a < idx && *b < idx) {
            Err(GraphError::InputOutOfRange)
        } else {
            Ok(())
        },
        Node::Max { a, b } => if !(*a < idx && *b < idx) {
            Err(GraphError::InputOutOfRange)
        } else {
            Ok(())
        },
        Node::Add { a, b } => if !(*a < idx && *b < idx) {
            Err(GraphError::InputOutOfRange)
        } else {
            Ok(())
        },
        Node::Multiply { a, b } => if !(*a < idx && *b < idx) {
            Err(GraphError::InputOutOfRange)
        } else {
            Ok(())
        },
        Node::Blend { a, b, control } => if !(*a < idx && *b < idx && *control < idx) {
            Err(GraphError::InputOutOfRange)
        } else {
            Ok(())
        },
        Node::Select { a, b, control, lower, upper, falloff } => if !(*a < idx && *b < idx
            && *control < idx) {
            Err(GraphError::InputOutOfRange)
        } else if !(is_finite(*lower) && is_finite(*upper) && is_finite(*falloff)) {
            Err(GraphError::NonFiniteParameter)
        } else if !(rank(*lower) <= rank(*upper) && rank(*falloff) >= 0) {
            Err(GraphError::InvalidBounds)
        } else {
            Ok(())
        },
        Node::Turbulence { input, frequency, power, roughness, .. } => if !(*input < idx) {
            Err(GraphError::InputOutOfRange)
        } else if !positive_param(*frequency) {
            Err(GraphError::InvalidFrequency)
        } else if !is_finite(*power) {
            Err(GraphError::NonFiniteParameter)
        } else if !(1 <= *roughness <= MAX_OCTAVES) {
            Err(GraphError::OctavesOutOfRange)
        } else {
            Ok(())
        },
        Node::Cache { input } => if !(*input < idx) {
            Err(GraphError::InputOutOfRange)
        } else {
            Ok(())
        },
    }
}

/// True if the node may stand at index `idx`.
pub open spec fn node_valid(n: &Node, idx: nat) -> bool {
    check_node(n, idx) is Ok
}

/// The seed of a noise-generating node, if it has one.
pub open spec fn node_seed(n: &Node) -> Option<u32> {
    match n {
        Node::Fbm { seed, .. } => Some(*seed),
        Node::RidgedMulti { seed, .. } => Some(*seed),
        Node::Billow { seed, .. } => Some(*seed),
        Node::Worley { seed, .. } => Some(*seed),
        Node::Turbulence { seed, .. } => Some(*seed),
        _ => None,
    }
}

/// True if no two noise-generating nodes of `s` share a seed.
pub open spec fn seeds_distinct(s: Seq<Node>) -> bool {
    forall|i: int, j: int|
        0 <= i < j < s.len() && node_seed(&s[i]) is Some ==> node_seed(&s[i]) != node_seed(
            &s[j],
        )
}

/// True if `newer` begins with exactly the nodes of `older`.
pub open spec fn extends(newer: Seq<Node>, older: Seq<Node>) -> bool {
    older.len() <= newer.len() && forall|i: int| 0 <= i < older.len() ==> newer[i] == older[i]
}


/// An elevation graph: an arena of nodes, each valid at its own index.
pub struct Graph {
    nodes: Vec<Node>,
}

impl View for Graph {
    type V = Seq<Node>;

    closed spec fn view(&self) -> Seq<Node> {
        self.nodes@
    }
}

impl Graph {
    /// Every node's inputs point at earlier nodes and every parameter is
    /// acceptable: the well-formedness invariant of a graph.
    pub open spec fn wf(&self) -> bool {
        forall|i: int| 0 <= i < self@.len() ==> node_valid(#[trigger] &self@[i], i as nat)
    }

    /// The empty graph.
    pub fn new() -> (g: Graph)
        ensures
            g@ =~= Seq::<Node>::empty(),
            g.wf(),
    {
        Graph { nodes: Vec::new() }
    }

    /// The number of nodes.
    pub fn len(&self) -> (n: usize)
        ensures
            n == self@.len(),
    {
        self.nodes.len()
    }

    /// The node at index `i`.
    pub fn node(&self, i: usize) -> (n: &Node)
        requires
            i < self@.len(),
        ensures
            n == &self@[i as int],
    {
        &self.nodes[i]
    }

    /// Appends a node after checking it, and returns its index.
    ///
    /// Succeeds exactly when [`check_node`] accepts the node at the current
    /// length; on failure the reported error is the one [`check_node`]
    /// gives and the graph is unchanged.
    pub fn try_push(&mut self, n: Node) -> (r: Result<usize, GraphError>)
        ensures
            r is Ok <==> check_node(&n, old(self)@.len()) is Ok,
            r is Err ==> r->Err_0 == check_node(&n, old(self)@.len())->Err_0 && final(self)@
                == old(self)@,
            r is Ok ==> final(self)@ =~= old(self)@.push(n) && r->Ok_0 == old(self)@.len(),
            r is Ok && old(self).wf() ==> final(self).wf(),
    {
        let idx = self.nodes.len();
        let checked: Result<(), GraphError> = check_node_exec(&n, idx);
        match checked {
            Ok(()) => {
                self.nodes.push(n);
                proof {
                    assert(self@ =~= old(self)@.push(self@[idx as int]));
                    if old(self).wf() {
                        assert forall|i: int| 0 <= i < self@.len() implies node_valid(
                            #[trigger] &self@[i],
                            i as nat,
                        ) by {
                            if i < idx {
                                assert(node_valid(&old(self)@[i], i as nat));
                            }
                        }
                    }
                }
                Ok(idx)
            },
            Err(e) => Err(e),
        }
    }
}

/// Runs the [`check_node`] validity check on a node.
fn check_node_exec(n: &Node, idx: usize) -> (r: Result<(), GraphError>)
    ensures
        r == check_node(n, idx as nat),
{
    match n {
        Node::Constant { value } => {
            if !finite_bits(*value) {
                Err(GraphError::NonFiniteParameter)
            } else {
                Ok(())
            }
        },
        Node::Fbm { frequency, persistence, lacunarity, octaves, .. } => {
            if !positive_bits(*frequency) {
                Err(GraphError::InvalidFrequency)
            } else if !positive_bits(*persistence) {
                Err(GraphError::InvalidPersistence)
            } else if !positive_bits(*lacunarity) {
                Err(GraphError::InvalidLacunarity)
            } else if !(1 <= *octaves && *octaves <= MAX_OCTAVES) {
                Err(GraphError::OctavesOutOfRange)
            } else {
                Ok(())
            }
        },
        Node::RidgedMulti { frequency, lacunarity, octaves, .. } => {
            if !positive_bits(*frequency) {
                Err(GraphError::InvalidFrequency)
            } else if !positive_bits(*lacunarity) {
                Err(GraphError::InvalidLacunarity)
            } else if !(1 <= *octaves && *octaves <= MAX_OCTAVES) {
                Err(GraphError::OctavesOutOfRange)
            } else {
                Ok(())
            }
        },
        Node::Billow { frequency, persistence, lacunarity, octaves, .. } => {
            if !positive_bits(*frequency) {
                Err(GraphError::InvalidFrequency)
            } else if !positive_bits(*persistence) {
                Err(GraphError::InvalidPersistence)
            } else if !positive_bits(*lacunarity) {
                Err(GraphError::InvalidLacunarity)
            } else if !(1 <= *octaves && *octaves <= MAX_OCTAVES) {
                Err(GraphError::OctavesOutOfRange)
            } else {
                Ok(())
            }
        },
        Node::Worley { frequency, displacement, .. } => {
            if !positive_bits(*frequency) {
                Err(GraphError::InvalidFrequency)
            } else if !finite_bits(*displacement) {
                Err(GraphError::NonFiniteParameter)
            } else {
                Ok(())
            }
        },
        Node::Curve { input, control_points } => {
            if !(*input < idx) {
                Err(GraphError::InputOutOfRange)
            } else if control_points.len() < 4 {
                Err(GraphError::TooFewControlPoints)
            } else if !curve_points_finite(control_points) {
                Err(GraphError::NonFiniteParameter)
            } else if !curve_inputs_increasing(control_points) {
                Err(GraphError::ControlPointsNotIncreasing)
            } else {
                Ok(())
            }
        },
        Node::Terrace { input, control_levels } => {
            if !(*input < idx) {
                Err(GraphError::InputOutOfRange)
            } else if control_levels.len() < 2 {
                Err(GraphError::TooFewControlPoints)
            } else if !levels_finite(control_levels) {
                Err(GraphError::NonFiniteParameter)
            } else if !levels_increasing(control_levels) {
                Err(GraphError::ControlPointsNotIncreasing)
            } else {
                Ok(())
            }
        },
        Node::Clamp { input, lower, upper } => {
            if !(*input < idx) {
                Err(GraphError::InputOutOfRange)
            } else if !(finite_bits(*lower) && finite_bits(*upper)) {
                Err(GraphError::NonFiniteParameter)
            } else if !le_bits(*lower, *upper) {
                Err(GraphError::InvalidBounds)
            } else {
                Ok(())
            }
        },
        Node::ScaleBias { input, scale, bias } => {
            if !(*input < idx) {
                Err(GraphError::InputOutOfRange)
            } else if !(finite_bits(*scale) && finite_bits(*bias)) {
                Err(GraphError::NonFiniteParameter)
            } else {
                Ok(())
            }
        },
        Node::Exponent { input, exponent } => {
            if !(*input < idx) {
                Err(GraphError::InputOutOfRange)
            } else if !positive_bits(*exponent) {
                Err(GraphError::InvalidExponent)
            } else {
                Ok(())
            }
        },
        Node::Min { a, b } => {
            if !(*a < idx && *b < idx) {
                Err(GraphError::InputOutOfRange)
            } else {
                Ok(())
            }
        },
        Node::Max { a, b } => {
            if !(*a < idx && *b < idx) {
                Err(GraphError::InputOutOfRange)
            } else {
                Ok(())
            }
        },
        Node::Add { a, b } => {
            if !(*a < idx && *b < idx) {
                Err(GraphError::InputOutOfRange)
            } else {
                Ok(())
            }
        },
        Node::Multiply { a, b } => {
            if !(*a < idx && *b < idx) {
                Err(GraphError::InputOutOfRange)
            } else {
                Ok(())
            }
        },
        Node::Blend { a, b, control } => {
            if !(*a < idx && *b < idx && *control < idx) {
                Err(GraphError::InputOutOfRange)
            } else {
                Ok(())
            }
        },
        Node::Select { a, b, control, lower, upper, falloff } => {
            if !(*a < idx && *b < idx && *control < idx) {
                Err(GraphError::InputOutOfRange)
            } else if !(finite_bits(*lower) && finite_bits(*upper) && finite_bits(*falloff)) {
                Err(GraphError::NonFiniteParameter)
            } else if !(le_bits(*lower, *upper) && !lt_bits(*falloff, 0)) {
                Err(GraphError::InvalidBounds)
            } else {
                Ok(())
            }
        },
        Node::Turbulence { input, frequency, power, roughness, .. } => {
            if !(*input < idx) {
                Err(GraphError::InputOutOfRange)
            } else if !positive_bits(*frequency) {
                Err(GraphError::InvalidFrequency)
            } else if !finite_bits(*power) {
                Err(GraphError::NonFiniteParameter)
            } else if !(1 <= *roughness && *roughness <= MAX_OCTAVES) {
                Err(GraphError::OctavesOutOfRange)
            } else {
                Ok(())
            }
        },
        Node::Cache { input } => {
            if !(*input < idx) {
                Err(GraphError::InputOutOfRange)
            } else {
                Ok(())
            }
        },
    }
}

/// Whether `b` encodes a finite value strictly above zero.
fn positive_bits(b: u64) -> (r: bool)
    ensures
        r == positive_param(b),
{
    finite_bits(b) && b != 0 && b < SIGN_BIT
}

/// Whether every control point of a curve is finite in input and output.
fn curve_points_finite(pts: &Vec<(u64, u64)>) -> (r: bool)
    ensures
        r == (all_finite(curve_inputs(pts@)) && all_finite(curve_outputs(pts@))),
{
    let n = pts.len();
    for k in 0..n
        invariant
            n == pts@.len(),
            forall|i: int|
                0 <= i < k ==> is_finite((#[trigger] pts@[i]).0) && is_finite(pts@[i].1),
    {
        let p = pts[k];
        if !finite_bits(p.0) || !finite_bits(p.1) {
            proof {
                assert(curve_inputs(pts@)[k as int] == pts@[k as int].0);
                assert(curve_outputs(pts@)[k as int] == pts@[k as int].1);
            }
            return false;
        }
    }
    proof {
        assert forall|i: int| 0 <= i < pts@.len() implies is_finite(
            #[trigger] curve_inputs(pts@)[i],
        ) && is_finite(curve_outputs(pts@)[i]) by {
            assert(curve_inputs(pts@)[i] == pts@[i].0);
            assert(curve_outputs(pts@)[i] == pts@[i].1);
        }
    }
    true
}

/// Whether the inputs of a curve's control points are strictly increasing.
fn curve_inputs_increasing(pts: &Vec<(u64, u64)>) -> (r: bool)
    ensures
        r == strictly_increasing(curve_inputs(pts@)),
{
    let n = pts.len();
    if n == 0 {
        return true;
    }
    for k in 0..n - 1
        invariant
            n == pts@.len(),
            n >= 1,
            forall|i: int|
                0 <= i < k ==> rank((#[trigger] pts@[i]).0) < rank(pts@[i + 1].0),
    {
        if !lt_bits(pts[k].0, pts[k + 1].0) {
            proof {
                assert(curve_inputs(pts@)[k as int] == pts@[k as int].0);
                assert(curve_inputs(pts@)[k as int + 1] == pts@[k as int + 1].0);
            }
            return false;
        }
    }
    proof {
        assert forall|i: int| 0 <= i < pts@.len() - 1 implies rank(
            #[trigger] curve_inputs(pts@)[i],
        ) < rank(curve_inputs(pts@)[i + 1]) by {
            assert(curve_inputs(pts@)[i] == pts@[i].0);
            assert(curve_inputs(pts@)[i + 1] == pts@[i + 1].0);
        }
        lemma_adjacent_implies_increasing_pub(curve_inputs(pts@));
    }
    true
}

/// Whether terrace control levels are all finite.
fn levels_finite(levels: &Vec<u64>) -> (r: bool)
    ensures
        r == all_finite(levels@),
{
    let n = levels.len();
    for k in 0..n
        invariant
            n == levels@.len(),
            forall|i: int| 0 <= i < k ==> is_finite(#[trigger] levels@[i]),
    {
        if !finite_bits(levels[k]) {
            return false;
        }
    }
    true
}

/// Whether terrace control levels are strictly increasing.
fn levels_increasing(levels: &Vec<u64>) -> (r: bool)
    ensures
        r == strictly_increasing(levels@),
{
    let n = levels.len();
    if n == 0 {
        return true;
    }
    for k in 0..n - 1
        invariant
            n == levels@.len(),
            n >= 1,
            forall|i: int| 0 <= i < k ==> rank(#[trigger] levels@[i]) < rank(levels@[i + 1]),
    {
        if !lt_bits(levels[k], levels[k + 1]) {
            return false;
        }
    }
    proof {
        lemma_adjacent_implies_increasing_pub(levels@);
    }
    true
}

/// The seed of a noise-generating node, if it has one.
pub fn node_seed_of(n: &Node) -> (o: Option<u32>)
    ensures
        o == node_seed(n),
{
    match n {
        Node::Fbm { seed, .. } => Some(*seed),
        Node::RidgedMulti { seed, .. } => Some(*seed),
        Node::Billow { seed, .. } => Some(*seed),
        Node::Worley { seed, .. } => Some(*seed),
        Node::Turbulence { seed, .. } => Some(*seed),
        _ => None,
    }
}

/// Whether no two noise-generating nodes of the graph share a seed.
pub fn distinct_node_seeds(g: &Graph) -> (r: bool)
    ensures
        r == seeds_distinct(g@),
{
    let n = g.len();
    for i in 0..n
        invariant
            n == g@.len(),
            forall|p: int, q: int|
                0 <= p < q < g@.len() && p < i && node_seed(#[trigger] &g@[p]) is Some
                    ==> node_seed(&g@[p]) != node_seed(#[trigger] &g@[q]),
    {
        let si = node_seed_of(g.node(i));
        if let Some(a) = si {
            for j in i + 1..n
                invariant
                    n == g@.len(),
                    i < n,
                    Some(a) == node_seed(&g@[i as int]),
                    forall|p: int, q: int|
                        0 <= p < q < g@.len() && p < i && node_seed(#[trigger] &g@[p]) is Some
                            ==> node_seed(&g@[p]) != node_seed(#[trigger] &g@[q]),
                    forall|q: int|
                        i < q < j ==> node_seed(&g@[i as int]) != node_seed(#[trigger] &g@[q]),
            {
                let sj = node_seed_of(g.node(j));
                if let Some(b) = sj {
                    if a == b {
                        return false;
                    }
                }
            }
        }
    }
    true
}

/// A chain of strictly increasing adjacent ranks orders every earlier
/// element below every later one.
proof fn lemma_rank_chain(s: Seq<u64>, i: int, j: int)
    requires
        forall|k: int| 0 <= k < s.len() - 1 ==> rank(#[trigger] s[k]) < rank(s[k + 1]),
        0 <= i < j < s.len(),
    ensures
        rank(s[i]) < rank(s[j]),
    decreases j - i,
{
    if i + 1 < j {
        lemma_rank_chain(s, i, j - 1);
    }
}

/// Adjacent strict increase of ranks implies strict increase overall.
pub proof fn lemma_adjacent_implies_increasing_pub(s: Seq<u64>)
    requires
        forall|k: int| 0 <= k < s.len() - 1 ==> rank(#[trigger] s[k]) < rank(s[k + 1]),
    ensures
        strictly_increasing(s),
{
    assert forall|i: int, j: int| 0 <= i < j < s.len() implies rank(s[i]) < rank(s[j]) by {
        lemma_rank_chain(s, i, j);
    }
}

} // verus!
