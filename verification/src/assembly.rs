//! The planet pipeline: the fixed wiring of noise primitives, transforms and
//! combinators into the eight terrain subsystems of the elevation model.
//!
//! [`planet_graph`] builds the whole graph from a 32-bit base seed.  Each
//! noise primitive derives its own seed as `base + fixed_offset`, with a
//! distinct hard-coded offset per primitive; [`planet_graph`] proves that no
//! two primitives share a seed, whatever the base (see also
//! [`lemma_offsets_keep_seeds_distinct`] for the offset scheme in general).
//! Construction is proved to succeed: every stage's nodes satisfy the
//! graph's well-formedness invariant by construction.
//!
//! All numeric parameters are binary64 bit patterns; the comment beside each
//! gives the decimal value it encodes.

use vstd::prelude::*;

verus! {

use crate::bits::{is_finite, rank};
use crate::graph::{
    Graph, Node, check_node, curve_inputs, curve_outputs, extends,
    lemma_adjacent_implies_increasing_pub, node_seed, seeds_distinct,
};

/// Bit pattern of `2.208984375`: lacunarity of the continents.
pub const CONTINENT_LACUNARITY: u64 = 0x4001AC0000000000u64;

/// Bit pattern of `2.142578125`: lacunarity of the mountains.
pub const MOUNTAIN_LACUNARITY: u64 = 0x4001240000000000u64;

/// Bit pattern of `2.162109375`: lacunarity of the hills.
pub const HILLS_LACUNARITY: u64 = 0x40014C0000000000u64;

/// Bit pattern of `2.314453125`: lacunarity of the plains.
pub const PLAINS_LACUNARITY: u64 = 0x4002840000000000u64;

/// Bit pattern of `2.212890625`: lacunarity of the badlands.
pub const BADLANDS_LACUNARITY: u64 = 0x4001B40000000000u64;

/// Bit pattern of `0.5`: the default persistence of the fractal fields.
pub const HALF: u64 = 0x3FE0000000000000u64;

/// Bit pattern of `0.0`: sea level, in planetary elevation units.
pub const SEA_LEVEL_BITS: u64 = 0x0000000000000000u64;

/// Bit pattern of `-0.75`: the bottom of the continental shelf's clamp.
pub const SHELF_BOTTOM_BITS: u64 = 0xBFE8000000000000u64;

/// Bit pattern of `-0.125`: scale and bias that invert ridges into trenches.
pub const TRENCH_SCALE_BITS: u64 = 0xBFC0000000000000u64;

/// Bit pattern of `0.25`: the scaling of base continent elevations into
/// planetary units, and the width of the river blend around sea level.
pub const CONTINENT_HEIGHT_SCALE_BITS: u64 = 0x3FD0000000000000u64;

/// Bit pattern of `0.01171875`: half the maximum river depth; scales the river signal.
pub const RIVER_SCALE_BITS: u64 = 0x3F88000000000000u64;

/// Bit pattern of `-0.01171875`: the negative bias that makes river carving subtractive.
pub const RIVER_BIAS_BITS: u64 = 0xBF88000000000000u64;

/// Appends a node that is known to be acceptable.
fn push_node(g: &mut Graph, n: Node) -> (i: usize)
    requires
        old(g).wf(),
        check_node(&n, old(g)@.len()) is Ok,
    ensures
        final(g).wf(),
        final(g)@ =~= old(g)@.push(n),
        i == old(g)@.len(),
{
    match g.try_push(n) {
        Ok(i) => i,
        Err(_) => vstd::pervasive::unreached(),
    }
}

/// Base continent definition: continent positions and base elevations.
fn base_continent_definition(g: &mut Graph, seed: u32) -> (h: usize)
    requires
        old(g).wf(),
    ensures
        final(g).wf(),
        extends(final(g)@, old(g)@),
        forall|i: int|
            old(g)@.len() <= i < final(g)@.len() && (#[trigger] node_seed(&final(g)@[i]))
                is Some ==> node_seed(&final(g)@[i]) == Some(seed.wrapping_add(0))
                || node_seed(&final(g)@[i]) == Some(seed.wrapping_add(1)),
        forall|i: int, j: int|
            old(g)@.len() <= i < j < final(g)@.len() && (#[trigger] node_seed(&final(g)@[i]))
                is Some ==> node_seed(&final(g)@[i]) != (#[trigger] node_seed(
            &final(g)@[j])),
        old(g)@.len() <= h < final(g)@.len(),
        (final(g)@[h as int] matches Node::Cache { .. }),
        (final(g)@[old(g)@.len() as int] matches Node::Fbm { seed: s, .. } && s == seed),
{
    let fb0 = push_node(g, Node::Fbm { seed: seed.wrapping_add(0), frequency: 0x3FD999999999999Au64, persistence: HALF, lacunarity: CONTINENT_LACUNARITY, octaves: 14 });  // frequency 0.4
    proof {
        assert(seed.wrapping_add(0) == seed);
    }
    let pts: Vec<(u64, u64)> = vec![
        (0xC000000000000000u64, 0xBFFA000000000000u64),  // (-2.0, -1.625)
        (0xBFF0000000000000u64, 0xBFF6000000000000u64),  // (-1.0, -1.375)
        (SEA_LEVEL_BITS, 0xBFD8000000000000u64),  // (0.0, -0.375)
        (0x3FB0000000000000u64, 0x3FC0000000000000u64),  // (0.0625, 0.125)
        (0x3FC0000000000000u64, 0x3FD0000000000000u64),  // (0.125, 0.25)
        (0x3FD0000000000000u64, 0x3FF0000000000000u64),  // (0.25, 1.0)
        (HALF, 0x3FD0000000000000u64),  // (0.5, 0.25)
        (0x3FE8000000000000u64, 0x3FD0000000000000u64),  // (0.75, 0.25)
        (0x3FF0000000000000u64, HALF),  // (1.0, 0.5)
        (0x4000000000000000u64, HALF),  // (2.0, 0.5)
    ];
    proof {
        assert forall|i: int| 0 <= i < pts@.len() implies is_finite((#[trigger] pts@[i]).0)
            && is_finite(pts@[i].1) && (i < pts@.len() - 1 ==> rank(pts@[i].0) < rank(
            pts@[i + 1].0)) by {
            if i == 0 {
                assert(pts@[0] == (0xC000000000000000u64, 0xBFFA000000000000u64));
                assert(pts@[1] == (0xBFF0000000000000u64, 0xBFF6000000000000u64));
            } else if i == 1 {
                assert(pts@[1] == (0xBFF0000000000000u64, 0xBFF6000000000000u64));
                assert(pts@[2] == (SEA_LEVEL_BITS, 0xBFD8000000000000u64));
            } else if i == 2 {
                assert(pts@[2] == (SEA_LEVEL_BITS, 0xBFD8000000000000u64));
                assert(pts@[3] == (0x3FB0000000000000u64, 0x3FC0000000000000u64));
            } else if i == 3 {
                assert(pts@[3] == (0x3FB0000000000000u64, 0x3FC0000000000000u64));
                assert(pts@[4] == (0x3FC0000000000000u64, 0x3FD0000000000000u64));
            } else if i == 4 {
                assert(pts@[4] == (0x3FC0000000000000u64, 0x3FD0000000000000u64));
                assert(pts@[5] == (0x3FD0000000000000u64, 0x3FF0000000000000u64));
            } else if i == 5 {
                assert(pts@[5] == (0x3FD0000000000000u64, 0x3FF0000000000000u64));
                assert(pts@[6] == (HALF, 0x3FD0000000000000u64));
            } else if i == 6 {
                assert(pts@[6] == (HALF, 0x3FD0000000000000u64));
                assert(pts@[7] == (0x3FE8000000000000u64, 0x3FD0000000000000u64));
            } else if i == 7 {
                assert(pts@[7] == (0x3FE8000000000000u64, 0x3FD0000000000000u64));
                assert(pts@[8] == (0x3FF0000000000000u64, HALF));
            } else if i == 8 {
                assert(pts@[8] == (0x3FF0000000000000u64, HALF));
                assert(pts@[9] == (0x4000000000000000u64, HALF));
            } else if i == 9 {
                assert(pts@[9] == (0x4000000000000000u64, HALF));
            }
        }
        assert forall|i: int| 0 <= i < curve_inputs(pts@).len() implies is_finite(
            #[trigger] curve_inputs(pts@)[i]) by {
            assert(curve_inputs(pts@)[i] == pts@[i].0);
        }
        assert forall|i: int| 0 <= i < curve_outputs(pts@).len() implies is_finite(
            #[trigger] curve_outputs(pts@)[i]) by {
            assert(curve_outputs(pts@)[i] == pts@[i].1);
        }
        assert forall|k: int| 0 <= k < curve_inputs(pts@).len() - 1 implies rank(
            #[trigger] curve_inputs(pts@)[k]) < rank(curve_inputs(pts@)[k + 1]) by {
            assert(curve_inputs(pts@)[k] == pts@[k].0);
            assert(curve_inputs(pts@)[k + 1] == pts@[k + 1].0);
        }
        lemma_adjacent_implies_increasing_pub(curve_inputs(pts@));
    }
    // mountain ranges appear near sea level
    let cu = push_node(g, Node::Curve { input: fb0, control_points: pts });
    let fb1 = push_node(g, Node::Fbm { seed: seed.wrapping_add(1), frequency: 0x3FFBCCCCCCCCCCCDu64, persistence: HALF, lacunarity: CONTINENT_LACUNARITY, octaves: 11 });  // frequency 1.7375
    // carve chunks out of the ranges so they stay passable
    let sb = push_node(g, Node::ScaleBias { input: fb1, scale: 0x3FD8000000000000u64, bias: 0x3FE4000000000000u64 });  // scale 0.375, bias 0.625
    let mi = push_node(g, Node::Min { a: sb, b: cu });
    let cl = push_node(g, Node::Clamp { input: mi, lower: 0xBFF0000000000000u64, upper: 0x3FF0000000000000u64 });  // bounds [-1.0, 1.0]
    let ca = push_node(g, Node::Cache { input: cl });
    ca
}

/// Continent definition: warps the higher parts of the base continents.
fn continent_definition(g: &mut Graph, seed: u32, base: usize) -> (h: usize)
    requires
        old(g).wf(),
        base < old(g)@.len(),
    ensures
        final(g).wf(),
        extends(final(g)@, old(g)@),
        forall|i: int|
            old(g)@.len() <= i < final(g)@.len() && (#[trigger] node_seed(&final(g)@[i]))
                is Some ==> node_seed(&final(g)@[i]) == Some(seed.wrapping_add(10))
                || node_seed(&final(g)@[i]) == Some(seed.wrapping_add(11))
                || node_seed(&final(g)@[i]) == Some(seed.wrapping_add(12)),
        forall|i: int, j: int|
            old(g)@.len() <= i < j < final(g)@.len() && (#[trigger] node_seed(&final(g)@[i]))
                is Some ==> node_seed(&final(g)@[i]) != (#[trigger] node_seed(
            &final(g)@[j])),
        old(g)@.len() <= h < final(g)@.len(),
        (final(g)@[h as int] matches Node::Cache { .. }),
{
    let tu0 = push_node(g, Node::Turbulence { input: base, seed: seed.wrapping_add(10), frequency: 0x4018666666666667u64, power: 0x3F6CCE99B6683350u64, roughness: 13 });  // frequency 6.1000000000000005, power 0.0035164835164835165
    let tu1 = push_node(g, Node::Turbulence { input: tu0, seed: seed.wrapping_add(11), frequency: 0x4032E66666666667u64, power: 0x3F4E37E460E93F6Bu64, roughness: 12 });  // frequency 18.900000000000002, power 0.0009221902017291067
    let tu2 = push_node(g, Node::Turbulence { input: tu1, seed: seed.wrapping_add(12), frequency: 0x40430CCCCCCCCCCDu64, power: 0x3F39B4E9D208C2E9u64, roughness: 11 });  // frequency 38.1, power 0.00039225300318705567
    // only terrain above sea level is warped; coasts stay put
    let se = push_node(g, Node::Select { a: base, b: tu2, control: base, lower: 0xBFA3333333333333u64, upper: 0x408F404CCCCCCCCDu64, falloff: 0x3FB0000000000000u64 });  // bounds [-0.0375, 1000.0375], falloff 0.0625
    let ca = push_node(g, Node::Cache { input: se });
    ca
}

/// Terrain type definition: gates where plains, hills and mountains may appear.
fn terrain_type_definition(g: &mut Graph, seed: u32, continent: usize) -> (h: usize)
    requires
        old(g).wf(),
        continent < old(g)@.len(),
    ensures
        final(g).wf(),
        extends(final(g)@, old(g)@),
        forall|i: int|
            old(g)@.len() <= i < final(g)@.len() && (#[trigger] node_seed(&final(g)@[i]))
                is Some ==> node_seed(&final(g)@[i]) == Some(seed.wrapping_add(20)),
        forall|i: int, j: int|
            old(g)@.len() <= i < j < final(g)@.len() && (#[trigger] node_seed(&final(g)@[i]))
                is Some ==> node_seed(&final(g)@[i]) != (#[trigger] node_seed(
            &final(g)@[j])),
        old(g)@.len() <= h < final(g)@.len(),
        (final(g)@[h as int] matches Node::Cache { .. }),
{
    let tu = push_node(g, Node::Turbulence { input: continent, seed: seed.wrapping_add(20), frequency: 0x401D000000000000u64, power: 0x3F93E3B836131CD3u64, roughness: 3 });  // frequency 7.25, power 0.019423368740515933
    let lv: Vec<u64> = vec![
        0xBFF0000000000000u64,  // -1.0
        0xBFD8000000000000u64,  // -0.375
        0x3FF0000000000000u64,  // 1.0
    ];
    proof {
        assert forall|i: int| 0 <= i < lv@.len() implies is_finite(#[trigger] lv@[i])
            && (i < lv@.len() - 1 ==> rank(lv@[i]) < rank(lv@[i + 1])) by {
            if i == 0 {
                assert(lv@[0] == 0xBFF0000000000000u64);
                assert(lv@[1] == 0xBFD8000000000000u64);
            } else if i == 1 {
                assert(lv@[1] == 0xBFD8000000000000u64);
                assert(lv@[2] == 0x3FF0000000000000u64);
            } else if i == 2 {
                assert(lv@[2] == 0x3FF0000000000000u64);
            }
        }
        lemma_adjacent_implies_increasing_pub(lv@);
    }
    let te = push_node(g, Node::Terrace { input: tu, control_levels: lv });
    let ca = push_node(g, Node::Cache { input: te });
    ca
}

/// Mountain base definition: ridges blended against flat river valleys.
fn mountain_base_definition(g: &mut Graph, seed: u32) -> (h: usize)
    requires
        old(g).wf(),
    ensures
        final(g).wf(),
        extends(final(g)@, old(g)@),
        forall|i: int|
            old(g)@.len() <= i < final(g)@.len() && (#[trigger] node_seed(&final(g)@[i]))
                is Some ==> node_seed(&final(g)@[i]) == Some(seed.wrapping_add(30))
                || node_seed(&final(g)@[i]) == Some(seed.wrapping_add(31))
                || node_seed(&final(g)@[i]) == Some(seed.wrapping_add(32))
                || node_seed(&final(g)@[i]) == Some(seed.wrapping_add(33)),
        forall|i: int, j: int|
            old(g)@.len() <= i < j < final(g)@.len() && (#[trigger] node_seed(&final(g)@[i]))
                is Some ==> node_seed(&final(g)@[i]) != (#[trigger] node_seed(
            &final(g)@[j])),
        old(g)@.len() <= h < final(g)@.len(),
        (final(g)@[h as int] matches Node::Cache { .. }),
{
    let rm0 = push_node(g, Node::RidgedMulti { seed: seed.wrapping_add(30), frequency: 0x409AEC0000000000u64, lacunarity: MOUNTAIN_LACUNARITY, octaves: 4 });  // frequency 1723.0
    let sb0 = push_node(g, Node::ScaleBias { input: rm0, scale: HALF, bias: 0x3FD8000000000000u64 });  // scale 0.5, bias 0.375
    let rm1 = push_node(g, Node::RidgedMulti { seed: seed.wrapping_add(31), frequency: 0x4076F00000000000u64, lacunarity: MOUNTAIN_LACUNARITY, octaves: 1 });  // frequency 367.0
    // a negative scale turns the one-octave ridges into valleys
    let sb1 = push_node(g, Node::ScaleBias { input: rm1, scale: 0xC000000000000000u64, bias: 0xBFE0000000000000u64 });  // scale -2.0, bias -0.5
    let co = push_node(g, Node::Constant { value: 0xBFF0000000000000u64 });  // value -1.0
    let bl = push_node(g, Node::Blend { a: co, b: sb0, control: sb1 });
    let tu0 = push_node(g, Node::Turbulence { input: bl, seed: seed.wrapping_add(32), frequency: 0x4094E40000000000u64, power: 0x3F2379CCB9530013u64, roughness: 4 });  // frequency 1337.0, power 0.00014858841010401187
    let tu1 = push_node(g, Node::Turbulence { input: tu0, seed: seed.wrapping_add(33), frequency: 0x40D4B94000000000u64, power: 0x3EE174141A94A81Eu64, roughness: 6 });  // frequency 21221.0, power 8.322444801384855e-06
    let ca = push_node(g, Node::Cache { input: tu1 });
    ca
}

/// High mountainous terrain: the individual mountains within the ridges.
fn high_mountainous_terrain(g: &mut Graph, seed: u32) -> (h: usize)
    requires
        old(g).wf(),
    ensures
        final(g).wf(),
        extends(final(g)@, old(g)@),
        forall|i: int|
            old(g)@.len() <= i < final(g)@.len() && (#[trigger] node_seed(&final(g)@[i]))
                is Some ==> node_seed(&final(g)@[i]) == Some(seed.wrapping_add(40))
                || node_seed(&final(g)@[i]) == Some(seed.wrapping_add(41))
                || node_seed(&final(g)@[i]) == Some(seed.wrapping_add(42)),
        forall|i: int, j: int|
            old(g)@.len() <= i < j < final(g)@.len() && (#[trigger] node_seed(&final(g)@[i]))
                is Some ==> node_seed(&final(g)@[i]) != (#[trigger] node_seed(
            &final(g)@[j])),
        old(g)@.len() <= h < final(g)@.len(),
        (final(g)@[h as int] matches Node::Cache { .. }),
{
    let rm0 = push_node(g, Node::RidgedMulti { seed: seed.wrapping_add(40), frequency: 0x40A2860000000000u64, lacunarity: MOUNTAIN_LACUNARITY, octaves: 3 });  // frequency 2371.0
    let rm1 = push_node(g, Node::RidgedMulti { seed: seed.wrapping_add(41), frequency: 0x40A24A0000000000u64, lacunarity: MOUNTAIN_LACUNARITY, octaves: 3 });  // frequency 2341.0
    let ma = push_node(g, Node::Max { a: rm0, b: rm1 });
    let tu = push_node(g, Node::Turbulence { input: ma, seed: seed.wrapping_add(42), frequency: 0x40DEC5C000000000u64, power: 0x3ED740F66F73A320u64, roughness: 4 });  // frequency 31511.0, power 5.5441284907219006e-06
    let ca = push_node(g, Node::Cache { input: tu });
    ca
}

/// Low mountainous terrain: cracks, flats and ridges in the valleys.
fn low_mountainous_terrain(g: &mut Graph, seed: u32) -> (h: usize)
    requires
        old(g).wf(),
    ensures
        final(g).wf(),
        extends(final(g)@, old(g)@),
        forall|i: int|
            old(g)@.len() <= i < final(g)@.len() && (#[trigger] node_seed(&final(g)@[i]))
                is Some ==> node_seed(&final(g)@[i]) == Some(seed.wrapping_add(50))
                || node_seed(&final(g)@[i]) == Some(seed.wrapping_add(51)),
        forall|i: int, j: int|
            old(g)@.len() <= i < j < final(g)@.len() && (#[trigger] node_seed(&final(g)@[i]))
                is Some ==> node_seed(&final(g)@[i]) != (#[trigger] node_seed(
            &final(g)@[j])),
        old(g)@.len() <= h < final(g)@.len(),
        (final(g)@[h as int] matches Node::Cache { .. }),
{
    let rm0 = push_node(g, Node::RidgedMulti { seed: seed.wrapping_add(50), frequency: 0x4095940000000000u64, lacunarity: MOUNTAIN_LACUNARITY, octaves: 8 });  // frequency 1381.0
    let rm1 = push_node(g, Node::RidgedMulti { seed: seed.wrapping_add(51), frequency: 0x40964C0000000000u64, lacunarity: MOUNTAIN_LACUNARITY, octaves: 8 });  // frequency 1427.0
    let mu = push_node(g, Node::Multiply { a: rm0, b: rm1 });
    let ca = push_node(g, Node::Cache { input: mu });
    ca
}

/// Mountainous terrain: high and low mountains combined and glaciated.
fn mountainous_terrain(g: &mut Graph, base: usize, high: usize, low: usize) -> (h: usize)
    requires
        old(g).wf(),
        base < old(g)@.len(),
        high < old(g)@.len(),
        low < old(g)@.len(),
    ensures
        final(g).wf(),
        extends(final(g)@, old(g)@),
        forall|i: int|
            old(g)@.len() <= i < final(g)@.len() ==> (#[trigger] node_seed(&final(g)@[i]))
                is None,
        old(g)@.len() <= h < final(g)@.len(),
        (final(g)@[h as int] matches Node::Cache { .. }),
{
    let sb0 = push_node(g, Node::ScaleBias { input: low, scale: 0x3FA0000000000000u64, bias: 0xBFEF000000000000u64 });  // scale 0.03125, bias -0.96875
    let sb1 = push_node(g, Node::ScaleBias { input: high, scale: 0x3FD0000000000000u64, bias: 0x3FD0000000000000u64 });  // scale 0.25, bias 0.25
    let ad = push_node(g, Node::Add { a: sb1, b: base });
    // high mountains in the ridges, low mountains in the valleys
    let se = push_node(g, Node::Select { a: sb0, b: ad, control: base, lower: 0xBFE0000000000000u64, upper: 0x408F3C0000000000u64, falloff: HALF });  // bounds [-0.5, 999.5], falloff 0.5
    let sb2 = push_node(g, Node::ScaleBias { input: se, scale: 0x3FE999999999999Au64, bias: SEA_LEVEL_BITS });  // scale 0.8, bias 0.0
    let ex = push_node(g, Node::Exponent { input: sb2, exponent: 0x3FF6000000000000u64 });  // exponent 1.375
    let ca = push_node(g, Node::Cache { input: ex });
    ca
}

/// Hilly terrain: billowing hills blended against flat river valleys.
fn hilly_terrain(g: &mut Graph, seed: u32) -> (h: usize)
    requires
        old(g).wf(),
    ensures
        final(g).wf(),
        extends(final(g)@, old(g)@),
        forall|i: int|
            old(g)@.len() <= i < final(g)@.len() && (#[trigger] node_seed(&final(g)@[i]))
                is Some ==> node_seed(&final(g)@[i]) == Some(seed.wrapping_add(60))
                || node_seed(&final(g)@[i]) == Some(seed.wrapping_add(61))
                || node_seed(&final(g)@[i]) == Some(seed.wrapping_add(62))
                || node_seed(&final(g)@[i]) == Some(seed.wrapping_add(63)),
        forall|i: int, j: int|
            old(g)@.len() <= i < j < final(g)@.len() && (#[trigger] node_seed(&final(g)@[i]))
                is Some ==> node_seed(&final(g)@[i]) != (#[trigger] node_seed(
            &final(g)@[j])),
        old(g)@.len() <= h < final(g)@.len(),
        (final(g)@[h as int] matches Node::Cache { .. }),
{
    let bi = push_node(g, Node::Billow { seed: seed.wrapping_add(60), frequency: 0x4099FC0000000000u64, persistence: HALF, lacunarity: HILLS_LACUNARITY, octaves: 6 });  // frequency 1663.0
    let sb0 = push_node(g, Node::ScaleBias { input: bi, scale: HALF, bias: HALF });  // scale 0.5, bias 0.5
    let rm = push_node(g, Node::RidgedMulti { seed: seed.wrapping_add(61), frequency: 0x4076F80000000000u64, lacunarity: HILLS_LACUNARITY, octaves: 1 });  // frequency 367.5
    let sb1 = push_node(g, Node::ScaleBias { input: rm, scale: 0xC000000000000000u64, bias: 0xBFF0000000000000u64 });  // scale -2.0, bias -1.0
    let co = push_node(g, Node::Constant { value: 0xBFF0000000000000u64 });  // value -1.0
    let bl = push_node(g, Node::Blend { a: co, b: sb1, control: sb0 });
    let sb2 = push_node(g, Node::ScaleBias { input: bl, scale: 0x3FE8000000000000u64, bias: 0xBFD0000000000000u64 });  // scale 0.75, bias -0.25
    let ex = push_node(g, Node::Exponent { input: sb2, exponent: 0x3FF6000000000000u64 });  // exponent 1.375
    let tu0 = push_node(g, Node::Turbulence { input: ex, seed: seed.wrapping_add(62), frequency: 0x4097EC0000000000u64, power: 0x3F0EFC0562CEEFADu64, roughness: 4 });  // frequency 1531.0, power 5.9098162047160334e-05
    let tu1 = push_node(g, Node::Turbulence { input: tu0, seed: seed.wrapping_add(63), frequency: 0x40D51C4000000000u64, power: 0x3EE1D7FC9A1EA5A7u64, roughness: 6 });  // frequency 21617.0, power 8.508538318202317e-06
    let ca = push_node(g, Node::Cache { input: tu1 });
    ca
}

/// Plains terrain: two billow fields multiplied into gentle variation.
fn plains_terrain(g: &mut Graph, seed: u32) -> (h: usize)
    requires
        old(g).wf(),
    ensures
        final(g).wf(),
        extends(final(g)@, old(g)@),
        forall|i: int|
            old(g)@.len() <= i < final(g)@.len() && (#[trigger] node_seed(&final(g)@[i]))
                is Some ==> node_seed(&final(g)@[i]) == Some(seed.wrapping_add(70))
                || node_seed(&final(g)@[i]) == Some(seed.wrapping_add(71)),
        forall|i: int, j: int|
            old(g)@.len() <= i < j < final(g)@.len() && (#[trigger] node_seed(&final(g)@[i]))
                is Some ==> node_seed(&final(g)@[i]) != (#[trigger] node_seed(
            &final(g)@[j])),
        old(g)@.len() <= h < final(g)@.len(),
        (final(g)@[h as int] matches Node::Cache { .. }),
{
    let bi0 = push_node(g, Node::Billow { seed: seed.wrapping_add(70), frequency: 0x4091260000000000u64, persistence: HALF, lacunarity: PLAINS_LACUNARITY, octaves: 8 });  // frequency 1097.5
    let sb0 = push_node(g, Node::ScaleBias { input: bi0, scale: HALF, bias: HALF });  // scale 0.5, bias 0.5
    let bi1 = push_node(g, Node::Billow { seed: seed.wrapping_add(71), frequency: 0x4091260000000000u64, persistence: HALF, lacunarity: PLAINS_LACUNARITY, octaves: 8 });  // frequency 1097.5
    let sb1 = push_node(g, Node::ScaleBias { input: bi1, scale: HALF, bias: HALF });  // scale 0.5, bias 0.5
    let mu = push_node(g, Node::Multiply { a: sb0, b: sb1 });
    let sb2 = push_node(g, Node::ScaleBias { input: mu, scale: 0x4000000000000000u64, bias: 0xBFF0000000000000u64 });  // scale 2.0, bias -1.0
    let ca = push_node(g, Node::Cache { input: sb2 });
    ca
}

/// Badlands sand: smooth dunes with cellular pit detail.
fn badlands_sand(g: &mut Graph, seed: u32) -> (h: usize)
    requires
        old(g).wf(),
    ensures
        final(g).wf(),
        extends(final(g)@, old(g)@),
        forall|i: int|
            old(g)@.len() <= i < final(g)@.len() && (#[trigger] node_seed(&final(g)@[i]))
                is Some ==> node_seed(&final(g)@[i]) == Some(seed.wrapping_add(80))
                || node_seed(&final(g)@[i]) == Some(seed.wrapping_add(81)),
        forall|i: int, j: int|
            old(g)@.len() <= i < j < final(g)@.len() && (#[trigger] node_seed(&final(g)@[i]))
                is Some ==> node_seed(&final(g)@[i]) != (#[trigger] node_seed(
            &final(g)@[j])),
        old(g)@.len() <= h < final(g)@.len(),
        (final(g)@[h as int] matches Node::Cache { .. }),
{
    let rm = push_node(g, Node::RidgedMulti { seed: seed.wrapping_add(80), frequency: 0x40B8138000000000u64, lacunarity: BADLANDS_LACUNARITY, octaves: 1 });  // frequency 6163.5
    let sb0 = push_node(g, Node::ScaleBias { input: rm, scale: 0x3FEC000000000000u64, bias: SEA_LEVEL_BITS });  // scale 0.875, bias 0.0
    let wo = push_node(g, Node::Worley { seed: seed.wrapping_add(81), frequency: 0x40CF9BA000000000u64, displacement: SEA_LEVEL_BITS, range_enabled: true });  // frequency 16183.25, displacement 0.0
    let sb1 = push_node(g, Node::ScaleBias { input: wo, scale: 0x3FD0000000000000u64, bias: 0x3FD0000000000000u64 });  // scale 0.25, bias 0.25
    let ad = push_node(g, Node::Add { a: sb0, b: sb1 });
    let ca = push_node(g, Node::Cache { input: ad });
    ca
}

/// Badlands cliffs: a near-flat-then-sheer profile, terraced and warped.
fn badlands_cliffs(g: &mut Graph, seed: u32) -> (h: usize)
    requires
        old(g).wf(),
    ensures
        final(g).wf(),
        extends(final(g)@, old(g)@),
        forall|i: int|
            old(g)@.len() <= i < final(g)@.len() && (#[trigger] node_seed(&final(g)@[i]))
                is Some ==> node_seed(&final(g)@[i]) == Some(seed.wrapping_add(90))
                || node_seed(&final(g)@[i]) == Some(seed.wrapping_add(91))
                || node_seed(&final(g)@[i]) == Some(seed.wrapping_add(92)),
        forall|i: int, j: int|
            old(g)@.len() <= i < j < final(g)@.len() && (#[trigger] node_seed(&final(g)@[i]))
                is Some ==> node_seed(&final(g)@[i]) != (#[trigger] node_seed(
            &final(g)@[j])),
        old(g)@.len() <= h < final(g)@.len(),
        (final(g)@[h as int] matches Node::Cache { .. }),
{
    let fb = push_node(g, Node::Fbm { seed: seed.wrapping_add(90), frequency: 0x4074F9999999999Au64, persistence: HALF, lacunarity: BADLANDS_LACUNARITY, octaves: 6 });  // frequency 335.6
    let pts: Vec<(u64, u64)> = vec![
        (0xC000000000000000u64, 0xC000000000000000u64),  // (-2.0, -2.0)
        (0xBFF0000000000000u64, 0xBFF0000000000000u64),  // (-1.0, -1.0)
        (0x8000000000000000u64, SHELF_BOTTOM_BITS),  // (-0.0, -0.75)
        (HALF, 0xBFD0000000000000u64),  // (0.5, -0.25)
        (0x3FE4000000000000u64, 0x3FEC000000000000u64),  // (0.625, 0.875)
        (0x3FE8000000000000u64, 0x3FF0000000000000u64),  // (0.75, 1.0)
        (0x4000000000000000u64, 0x3FF4000000000000u64),  // (2.0, 1.25)
    ];
    proof {
        assert forall|i: int| 0 <= i < pts@.len() implies is_finite((#[trigger] pts@[i]).0)
            && is_finite(pts@[i].1) && (i < pts@.len() - 1 ==> rank(pts@[i].0) < rank(
            pts@[i + 1].0)) by {
            if i == 0 {
                assert(pts@[0] == (0xC000000000000000u64, 0xC000000000000000u64));
                assert(pts@[1] == (0xBFF0000000000000u64, 0xBFF0000000000000u64));
            } else if i == 1 {
                assert(pts@[1] == (0xBFF0000000000000u64, 0xBFF0000000000000u64));
                assert(pts@[2] == (0x8000000000000000u64, SHELF_BOTTOM_BITS));
            } else if i == 2 {
                assert(pts@[2] == (0x8000000000000000u64, SHELF_BOTTOM_BITS));
                assert(pts@[3] == (HALF, 0xBFD0000000000000u64));
            } else if i == 3 {
                assert(pts@[3] == (HALF, 0xBFD0000000000000u64));
                assert(pts@[4] == (0x3FE4000000000000u64, 0x3FEC000000000000u64));
            } else if i == 4 {
                assert(pts@[4] == (0x3FE4000000000000u64, 0x3FEC000000000000u64));
                assert(pts@[5] == (0x3FE8000000000000u64, 0x3FF0000000000000u64));
            } else if i == 5 {
                assert(pts@[5] == (0x3FE8000000000000u64, 0x3FF0000000000000u64));
                assert(pts@[6] == (0x4000000000000000u64, 0x3FF4000000000000u64));
            } else if i == 6 {
                assert(pts@[6] == (0x4000000000000000u64, 0x3FF4000000000000u64));
            }
        }
        assert forall|i: int| 0 <= i < curve_inputs(pts@).len() implies is_finite(
            #[trigger] curve_inputs(pts@)[i]) by {
            assert(curve_inputs(pts@)[i] == pts@[i].0);
        }
        assert forall|i: int| 0 <= i < curve_outputs(pts@).len() implies is_finite(
            #[trigger] curve_outputs(pts@)[i]) by {
            assert(curve_outputs(pts@)[i] == pts@[i].1);
        }
        assert forall|k: int| 0 <= k < curve_inputs(pts@).len() - 1 implies rank(
            #[trigger] curve_inputs(pts@)[k]) < rank(curve_inputs(pts@)[k + 1]) by {
            assert(curve_inputs(pts@)[k] == pts@[k].0);
            assert(curve_inputs(pts@)[k + 1] == pts@[k + 1].0);
        }
        lemma_adjacent_implies_increasing_pub(curve_inputs(pts@));
    }
    let cu = push_node(g, Node::Curve { input: fb, control_points: pts });
    let cl = push_node(g, Node::Clamp { input: cu, lower: 0xC08F390000000000u64, upper: 0x3FEC000000000000u64 });  // bounds [-999.125, 0.875]
    let lv: Vec<u64> = vec![
        0xBFF0000000000000u64,  // -1.0
        0xBFEC000000000000u64,  // -0.875
        SHELF_BOTTOM_BITS,  // -0.75
        0xBFE0000000000000u64,  // -0.5
        SEA_LEVEL_BITS,  // 0.0
        0x3FF0000000000000u64,  // 1.0
    ];
    proof {
        assert forall|i: int| 0 <= i < lv@.len() implies is_finite(#[trigger] lv@[i])
            && (i < lv@.len() - 1 ==> rank(lv@[i]) < rank(lv@[i + 1])) by {
            if i == 0 {
                assert(lv@[0] == 0xBFF0000000000000u64);
                assert(lv@[1] == 0xBFEC000000000000u64);
            } else if i == 1 {
                assert(lv@[1] == 0xBFEC000000000000u64);
                assert(lv@[2] == SHELF_BOTTOM_BITS);
            } else if i == 2 {
                assert(lv@[2] == SHELF_BOTTOM_BITS);
                assert(lv@[3] == 0xBFE0000000000000u64);
            } else if i == 3 {
                assert(lv@[3] == 0xBFE0000000000000u64);
                assert(lv@[4] == SEA_LEVEL_BITS);
            } else if i == 4 {
                assert(lv@[4] == SEA_LEVEL_BITS);
                assert(lv@[5] == 0x3FF0000000000000u64);
            } else if i == 5 {
                assert(lv@[5] == 0x3FF0000000000000u64);
            }
        }
        lemma_adjacent_implies_increasing_pub(lv@);
    }
    let te = push_node(g, Node::Terrace { input: cl, control_levels: lv });
    let tu0 = push_node(g, Node::Turbulence { input: te, seed: seed.wrapping_add(91), frequency: 0x40CF778000000000u64, power: 0x3EDDA230C7C41C57u64, roughness: 3 });  // frequency 16111.0, power 7.06519051286218e-06
    let tu1 = push_node(g, Node::Turbulence { input: tu0, seed: seed.wrapping_add(92), frequency: 0x40E1A16000000000u64, power: 0x3ED3D3C2F47432FCu64, roughness: 3 });  // frequency 36107.0, power 4.727171307961029e-06
    let ca = push_node(g, Node::Cache { input: tu1 });
    ca
}

/// Badlands terrain: dunes in the low areas, cliffs in the high areas.
fn badlands_terrain(g: &mut Graph, sand: usize, cliffs: usize) -> (h: usize)
    requires
        old(g).wf(),
        sand < old(g)@.len(),
        cliffs < old(g)@.len(),
    ensures
        final(g).wf(),
        extends(final(g)@, old(g)@),
        forall|i: int|
            old(g)@.len() <= i < final(g)@.len() ==> (#[trigger] node_seed(&final(g)@[i]))
                is None,
        old(g)@.len() <= h < final(g)@.len(),
        (final(g)@[h as int] matches Node::Cache { .. }),
{
    let sb = push_node(g, Node::ScaleBias { input: sand, scale: 0x3FD0000000000000u64, bias: SHELF_BOTTOM_BITS });  // scale 0.25, bias -0.75
    let ma = push_node(g, Node::Max { a: cliffs, b: sb });
    let ca = push_node(g, Node::Cache { input: ma });
    ca
}

/// River positions: large and small ridge fields inverted into channels.
fn river_positions(g: &mut Graph, seed: u32) -> (h: usize)
    requires
        old(g).wf(),
    ensures
        final(g).wf(),
        extends(final(g)@, old(g)@),
        forall|i: int|
            old(g)@.len() <= i < final(g)@.len() && (#[trigger] node_seed(&final(g)@[i]))
                is Some ==> node_seed(&final(g)@[i]) == Some(seed.wrapping_add(100))
                || node_seed(&final(g)@[i]) == Some(seed.wrapping_add(101))
                || node_seed(&final(g)@[i]) == Some(seed.wrapping_add(102)),
        forall|i: int, j: int|
            old(g)@.len() <= i < j < final(g)@.len() && (#[trigger] node_seed(&final(g)@[i]))
                is Some ==> node_seed(&final(g)@[i]) != (#[trigger] node_seed(
            &final(g)@[j])),
        old(g)@.len() <= h < final(g)@.len(),
        (final(g)@[h as int] matches Node::Cache { .. }),
{
    let rm0 = push_node(g, Node::RidgedMulti { seed: seed.wrapping_add(100), frequency: 0x4032C00000000000u64, lacunarity: CONTINENT_LACUNARITY, octaves: 1 });  // frequency 18.75
    let pts0: Vec<(u64, u64)> = vec![
        (0xC000000000000000u64, 0x4000000000000000u64),  // (-2.0, 2.0)
        (0xBFF0000000000000u64, 0x3FF0000000000000u64),  // (-1.0, 1.0)
        (TRENCH_SCALE_BITS, 0x3FEC000000000000u64),  // (-0.125, 0.875)
        (SEA_LEVEL_BITS, 0xBFF0000000000000u64),  // (0.0, -1.0)
        (0x3FF0000000000000u64, 0xBFF8000000000000u64),  // (1.0, -1.5)
        (0x4000000000000000u64, 0xC000000000000000u64),  // (2.0, -2.0)
    ];
    proof {
        assert forall|i: int| 0 <= i < pts0@.len() implies is_finite((#[trigger] pts0@[i]).0)
            && is_finite(pts0@[i].1) && (i < pts0@.len() - 1 ==> rank(pts0@[i].0) < rank(
            pts0@[i + 1].0)) by {
            if i == 0 {
                assert(pts0@[0] == (0xC000000000000000u64, 0x4000000000000000u64));
                assert(pts0@[1] == (0xBFF0000000000000u64, 0x3FF0000000000000u64));
            } else if i == 1 {
                assert(pts0@[1] == (0xBFF0000000000000u64, 0x3FF0000000000000u64));
                assert(pts0@[2] == (TRENCH_SCALE_BITS, 0x3FEC000000000000u64));
            } else if i == 2 {
                assert(pts0@[2] == (TRENCH_SCALE_BITS, 0x3FEC000000000000u64));
                assert(pts0@[3] == (SEA_LEVEL_BITS, 0xBFF0000000000000u64));
            } else if i == 3 {
                assert(pts0@[3] == (SEA_LEVEL_BITS, 0xBFF0000000000000u64));
                assert(pts0@[4] == (0x3FF0000000000000u64, 0xBFF8000000000000u64));
            } else if i == 4 {
                assert(pts0@[4] == (0x3FF0000000000000u64, 0xBFF8000000000000u64));
                assert(pts0@[5] == (0x4000000000000000u64, 0xC000000000000000u64));
            } else if i == 5 {
                assert(pts0@[5] == (0x4000000000000000u64, 0xC000000000000000u64));
            }
        }
        assert forall|i: int| 0 <= i < curve_inputs(pts0@).len() implies is_finite(
            #[trigger] curve_inputs(pts0@)[i]) by {
            assert(curve_inputs(pts0@)[i] == pts0@[i].0);
        }
        assert forall|i: int| 0 <= i < curve_outputs(pts0@).len() implies is_finite(
            #[trigger] curve_outputs(pts0@)[i]) by {
            assert(curve_outputs(pts0@)[i] == pts0@[i].1);
        }
        assert forall|k: int| 0 <= k < curve_inputs(pts0@).len() - 1 implies rank(
            #[trigger] curve_inputs(pts0@)[k]) < rank(curve_inputs(pts0@)[k + 1]) by {
            assert(curve_inputs(pts0@)[k] == pts0@[k].0);
            assert(curve_inputs(pts0@)[k + 1] == pts0@[k + 1].0);
        }
        lemma_adjacent_implies_increasing_pub(curve_inputs(pts0@));
    }
    let cu0 = push_node(g, Node::Curve { input: rm0, control_points: pts0 });
    let rm1 = push_node(g, Node::RidgedMulti { seed: seed.wrapping_add(101), frequency: 0x4045A00000000000u64, lacunarity: CONTINENT_LACUNARITY, octaves: 1 });  // frequency 43.25
    let pts1: Vec<(u64, u64)> = vec![
        (0xC000000000000000u64, 0x4000000000000000u64),  // (-2.0, 2.0)
        (0xBFF0000000000000u64, 0x3FF8000000000000u64),  // (-1.0, 1.5)
        (TRENCH_SCALE_BITS, 0x3FF7000000000000u64),  // (-0.125, 1.4375)
        (SEA_LEVEL_BITS, HALF),  // (0.0, 0.5)
        (0x3FF0000000000000u64, 0x3FD0000000000000u64),  // (1.0, 0.25)
        (0x4000000000000000u64, SEA_LEVEL_BITS),  // (2.0, 0.0)
    ];
    proof {
        assert forall|i: int| 0 <= i < pts1@.len() implies is_finite((#[trigger] pts1@[i]).0)
            && is_finite(pts1@[i].1) && (i < pts1@.len() - 1 ==> rank(pts1@[i].0) < rank(
            pts1@[i + 1].0)) by {
            if i == 0 {
                assert(pts1@[0] == (0xC000000000000000u64, 0x4000000000000000u64));
                assert(pts1@[1] == (0xBFF0000000000000u64, 0x3FF8000000000000u64));
            } else if i == 1 {
                assert(pts1@[1] == (0xBFF0000000000000u64, 0x3FF8000000000000u64));
                assert(pts1@[2] == (TRENCH_SCALE_BITS, 0x3FF7000000000000u64));
            } else if i == 2 {
                assert(pts1@[2] == (TRENCH_SCALE_BITS, 0x3FF7000000000000u64));
                assert(pts1@[3] == (SEA_LEVEL_BITS, HALF));
            } else if i == 3 {
                assert(pts1@[3] == (SEA_LEVEL_BITS, HALF));
                assert(pts1@[4] == (0x3FF0000000000000u64, 0x3FD0000000000000u64));
            } else if i == 4 {
                assert(pts1@[4] == (0x3FF0000000000000u64, 0x3FD0000000000000u64));
                assert(pts1@[5] == (0x4000000000000000u64, SEA_LEVEL_BITS));
            } else if i == 5 {
                assert(pts1@[5] == (0x4000000000000000u64, SEA_LEVEL_BITS));
            }
        }
        assert forall|i: int| 0 <= i < curve_inputs(pts1@).len() implies is_finite(
            #[trigger] curve_inputs(pts1@)[i]) by {
            assert(curve_inputs(pts1@)[i] == pts1@[i].0);
        }
        assert forall|i: int| 0 <= i < curve_outputs(pts1@).len() implies is_finite(
            #[trigger] curve_outputs(pts1@)[i]) by {
            assert(curve_outputs(pts1@)[i] == pts1@[i].1);
        }
        assert forall|k: int| 0 <= k < curve_inputs(pts1@).len() - 1 implies rank(
            #[trigger] curve_inputs(pts1@)[k]) < rank(curve_inputs(pts1@)[k + 1]) by {
            assert(curve_inputs(pts1@)[k] == pts1@[k].0);
            assert(curve_inputs(pts1@)[k + 1] == pts1@[k + 1].0);
        }
        lemma_adjacent_implies_increasing_pub(curve_inputs(pts1@));
    }
    let cu1 = push_node(g, Node::Curve { input: rm1, control_points: pts1 });
    // small rivers cut into large ones
    let mi = push_node(g, Node::Min { a: cu0, b: cu1 });
    let tu = push_node(g, Node::Turbulence { input: mi, seed: seed.wrapping_add(102), frequency: 0x4022800000000000u64, power: 0x3F91BB4A4046ED29u64, roughness: 6 });  // frequency 9.25, power 0.017316017316017316
    let ca = push_node(g, Node::Cache { input: tu });
    ca
}

/// Mountains rescaled to planetary units, with varied peak heights.
fn scaled_mountainous_terrain(g: &mut Graph, seed: u32, mountains: usize) -> (h: usize)
    requires
        old(g).wf(),
        mountains < old(g)@.len(),
    ensures
        final(g).wf(),
        extends(final(g)@, old(g)@),
        forall|i: int|
            old(g)@.len() <= i < final(g)@.len() && (#[trigger] node_seed(&final(g)@[i]))
                is Some ==> node_seed(&final(g)@[i]) == Some(seed.wrapping_add(110)),
        forall|i: int, j: int|
            old(g)@.len() <= i < j < final(g)@.len() && (#[trigger] node_seed(&final(g)@[i]))
                is Some ==> node_seed(&final(g)@[i]) != (#[trigger] node_seed(
            &final(g)@[j])),
        old(g)@.len() <= h < final(g)@.len(),
        (final(g)@[h as int] matches Node::Cache { .. }),
{
    let sb0 = push_node(g, Node::ScaleBias { input: mountains, scale: 0x3FC0000000000000u64, bias: 0x3FC0000000000000u64 });  // scale 0.125, bias 0.125
    let fb = push_node(g, Node::Fbm { seed: seed.wrapping_add(110), frequency: 0x402D000000000000u64, persistence: HALF, lacunarity: MOUNTAIN_LACUNARITY, octaves: 6 });  // frequency 14.5
    let ex = push_node(g, Node::Exponent { input: fb, exponent: 0x3FF4000000000000u64 });  // exponent 1.25
    let sb1 = push_node(g, Node::ScaleBias { input: ex, scale: 0x3FD0000000000000u64, bias: 0x3FF0000000000000u64 });  // scale 0.25, bias 1.0
    let mu = push_node(g, Node::Multiply { a: sb0, b: sb1 });
    let ca = push_node(g, Node::Cache { input: mu });
    ca
}

/// Hills rescaled to planetary units, with varied hilltop heights.
fn scaled_hilly_terrain(g: &mut Graph, seed: u32, hills: usize) -> (h: usize)
    requires
        old(g).wf(),
        hills < old(g)@.len(),
    ensures
        final(g).wf(),
        extends(final(g)@, old(g)@),
        forall|i: int|
            old(g)@.len() <= i < final(g)@.len() && (#[trigger] node_seed(&final(g)@[i]))
                is Some ==> node_seed(&final(g)@[i]) == Some(seed.wrapping_add(120)),
        forall|i: int, j: int|
            old(g)@.len() <= i < j < final(g)@.len() && (#[trigger] node_seed(&final(g)@[i]))
                is Some ==> node_seed(&final(g)@[i]) != (#[trigger] node_seed(
            &final(g)@[j])),
        old(g)@.len() <= h < final(g)@.len(),
        (final(g)@[h as int] matches Node::Cache { .. }),
{
    let sb0 = push_node(g, Node::ScaleBias { input: hills, scale: 0x3FB0000000000000u64, bias: 0x3FB0000000000000u64 });  // scale 0.0625, bias 0.0625
    let fb = push_node(g, Node::Fbm { seed: seed.wrapping_add(120), frequency: 0x402B000000000000u64, persistence: HALF, lacunarity: HILLS_LACUNARITY, octaves: 6 });  // frequency 13.5
    let ex = push_node(g, Node::Exponent { input: fb, exponent: 0x3FF4000000000000u64 });  // exponent 1.25
    let sb1 = push_node(g, Node::ScaleBias { input: ex, scale: HALF, bias: 0x3FF8000000000000u64 });  // scale 0.5, bias 1.5
    let mu = push_node(g, Node::Multiply { a: sb0, b: sb1 });
    let ca = push_node(g, Node::Cache { input: mu });
    ca
}

/// Plains flattened heavily into planetary units.
fn scaled_plains_terrain(g: &mut Graph, plains: usize) -> (h: usize)
    requires
        old(g).wf(),
        plains < old(g)@.len(),
    ensures
        final(g).wf(),
        extends(final(g)@, old(g)@),
        forall|i: int|
            old(g)@.len() <= i < final(g)@.len() ==> (#[trigger] node_seed(&final(g)@[i]))
                is None,
        old(g)@.len() <= h < final(g)@.len(),
        (final(g)@[h as int] matches Node::Cache { .. }),
{
    let sb = push_node(g, Node::ScaleBias { input: plains, scale: 0x3F70000000000000u64, bias: 0x3F80000000000000u64 });  // scale 0.00390625, bias 0.0078125
    let ca = push_node(g, Node::Cache { input: sb });
    ca
}

/// Badlands rescaled to planetary units.
fn scaled_badlands_terrain(g: &mut Graph, badlands: usize) -> (h: usize)
    requires
        old(g).wf(),
        badlands < old(g)@.len(),
    ensures
        final(g).wf(),
        extends(final(g)@, old(g)@),
        forall|i: int|
            old(g)@.len() <= i < final(g)@.len() ==> (#[trigger] node_seed(&final(g)@[i]))
                is None,
        old(g)@.len() <= h < final(g)@.len(),
        (final(g)@[h as int] matches Node::Cache { .. }),
{
    let sb = push_node(g, Node::ScaleBias { input: badlands, scale: 0x3FB0000000000000u64, bias: 0x3FB0000000000000u64 });  // scale 0.0625, bias 0.0625
    let ca = push_node(g, Node::Cache { input: sb });
    ca
}

/// Continental shelf: terraced shelves clamped below sea level, with trenches.
fn continental_shelf(g: &mut Graph, seed: u32, continent: usize) -> (h: (usize, usize, usize, usize))
    requires
        old(g).wf(),
        continent < old(g)@.len(),
    ensures
        final(g).wf(),
        extends(final(g)@, old(g)@),
        forall|i: int|
            old(g)@.len() <= i < final(g)@.len() && (#[trigger] node_seed(&final(g)@[i]))
                is Some ==> node_seed(&final(g)@[i]) == Some(seed.wrapping_add(130)),
        forall|i: int, j: int|
            old(g)@.len() <= i < j < final(g)@.len() && (#[trigger] node_seed(&final(g)@[i]))
                is Some ==> node_seed(&final(g)@[i]) != (#[trigger] node_seed(
            &final(g)@[j])),
        (final(g)@[h.0 as int] matches Node::Clamp { lower, upper, .. } && lower == SHELF_BOTTOM_BITS && upper == SEA_LEVEL_BITS),
        (final(g)@[h.1 as int] matches Node::ScaleBias { scale, bias, .. } && scale == TRENCH_SCALE_BITS && bias == TRENCH_SCALE_BITS),
        (final(g)@[h.2 as int] matches Node::Add { a, b } && a == h.1 && b == h.0),
        (final(g)@[h.3 as int] matches Node::Cache { input } && input == h.2),
        old(g)@.len() <= h.0 < final(g)@.len() && h.1 < final(g)@.len() && h.2 < final(g)@.len() && h.3 < final(g)@.len(),
{
    let lv: Vec<u64> = vec![
        0xBFF0000000000000u64,  // -1.0
        SHELF_BOTTOM_BITS,  // -0.75
        0xBFD8000000000000u64,  // -0.375
        0x3FF0000000000000u64,  // 1.0
    ];
    proof {
        assert forall|i: int| 0 <= i < lv@.len() implies is_finite(#[trigger] lv@[i])
            && (i < lv@.len() - 1 ==> rank(lv@[i]) < rank(lv@[i + 1])) by {
            if i == 0 {
                assert(lv@[0] == 0xBFF0000000000000u64);
                assert(lv@[1] == SHELF_BOTTOM_BITS);
            } else if i == 1 {
                assert(lv@[1] == SHELF_BOTTOM_BITS);
                assert(lv@[2] == 0xBFD8000000000000u64);
            } else if i == 2 {
                assert(lv@[2] == 0xBFD8000000000000u64);
                assert(lv@[3] == 0x3FF0000000000000u64);
            } else if i == 3 {
                assert(lv@[3] == 0x3FF0000000000000u64);
            }
        }
        lemma_adjacent_implies_increasing_pub(lv@);
    }
    let te = push_node(g, Node::Terrace { input: continent, control_levels: lv });
    // the shelf subgroup is only about the oceans: clamp to sea level
    let cl = push_node(g, Node::Clamp { input: te, lower: SHELF_BOTTOM_BITS, upper: SEA_LEVEL_BITS });  // bounds [-0.75, 0.0]
    let rm = push_node(g, Node::RidgedMulti { seed: seed.wrapping_add(130), frequency: 0x3FFC000000000000u64, lacunarity: CONTINENT_LACUNARITY, octaves: 16 });  // frequency 1.75
    // invert the ridges into trenches, measured in planetary units
    let sb = push_node(g, Node::ScaleBias { input: rm, scale: TRENCH_SCALE_BITS, bias: TRENCH_SCALE_BITS });  // scale -0.125, bias -0.125
    let ad = push_node(g, Node::Add { a: sb, b: cl });
    let ca = push_node(g, Node::Cache { input: ad });
    (cl, sb, ad, ca)
}

/// Base continent elevations: shelf below the shelf level, scaled continents above.
fn base_continent_elevation(g: &mut Graph, continent: usize, shelf: usize) -> (h: usize)
    requires
        old(g).wf(),
        continent < old(g)@.len(),
        shelf < old(g)@.len(),
    ensures
        final(g).wf(),
        extends(final(g)@, old(g)@),
        forall|i: int|
            old(g)@.len() <= i < final(g)@.len() ==> (#[trigger] node_seed(&final(g)@[i]))
                is None,
        old(g)@.len() <= h < final(g)@.len(),
        (final(g)@[h as int] matches Node::Cache { .. }),
{
    let sb = push_node(g, Node::ScaleBias { input: continent, scale: 0x3FD0000000000000u64, bias: SEA_LEVEL_BITS });  // scale 0.25, bias 0.0
    let se = push_node(g, Node::Select { a: sb, b: shelf, control: continent, lower: 0xC08F430000000000u64, upper: 0xBFD8000000000000u64, falloff: 0x3FA0000000000000u64 });  // bounds [-1000.375, -0.375], falloff 0.03125
    let ca = push_node(g, Node::Cache { input: se });
    ca
}

/// Continents with plains stamped on.
fn continents_with_plains(g: &mut Graph, base_elev: usize, plains: usize) -> (h: usize)
    requires
        old(g).wf(),
        base_elev < old(g)@.len(),
        plains < old(g)@.len(),
    ensures
        final(g).wf(),
        extends(final(g)@, old(g)@),
        forall|i: int|
            old(g)@.len() <= i < final(g)@.len() ==> (#[trigger] node_seed(&final(g)@[i]))
                is None,
        old(g)@.len() <= h < final(g)@.len(),
        (final(g)@[h as int] matches Node::Cache { .. }),
{
    let ad = push_node(g, Node::Add { a: base_elev, b: plains });
    let ca = push_node(g, Node::Cache { input: ad });
    ca
}

/// Continents with hills, gated on the terrain type.
fn continents_with_hills(g: &mut Graph, with_plains: usize, base_elev: usize, hills: usize, terrain_type: usize) -> (h: usize)
    requires
        old(g).wf(),
        with_plains < old(g)@.len(),
        base_elev < old(g)@.len(),
        hills < old(g)@.len(),
        terrain_type < old(g)@.len(),
    ensures
        final(g).wf(),
        extends(final(g)@, old(g)@),
        forall|i: int|
            old(g)@.len() <= i < final(g)@.len() ==> (#[trigger] node_seed(&final(g)@[i]))
                is None,
        old(g)@.len() <= h < final(g)@.len(),
        (final(g)@[h as int] matches Node::Cache { .. }),
{
    let ad = push_node(g, Node::Add { a: base_elev, b: hills });
    let se = push_node(g, Node::Select { a: with_plains, b: ad, control: terrain_type, lower: 0x3FD0000000000000u64, upper: 0x408F420000000000u64, falloff: 0x3FD0000000000000u64 });  // bounds [0.25, 1000.25], falloff 0.25
    let ca = push_node(g, Node::Cache { input: se });
    ca
}

/// Continents with mountains, higher on higher continents, gated on the terrain type.
fn continents_with_mountains(g: &mut Graph, with_hills: usize, base_elev: usize, mountains: usize, continent: usize, terrain_type: usize) -> (h: usize)
    requires
        old(g).wf(),
        with_hills < old(g)@.len(),
        base_elev < old(g)@.len(),
        mountains < old(g)@.len(),
        continent < old(g)@.len(),
        terrain_type < old(g)@.len(),
    ensures
        final(g).wf(),
        extends(final(g)@, old(g)@),
        forall|i: int|
            old(g)@.len() <= i < final(g)@.len() ==> (#[trigger] node_seed(&final(g)@[i]))
                is None,
        old(g)@.len() <= h < final(g)@.len(),
        (final(g)@[h as int] matches Node::Cache { .. }),
{
    let ad0 = push_node(g, Node::Add { a: base_elev, b: mountains });
    let pts: Vec<(u64, u64)> = vec![
        (0xBFF0000000000000u64, 0xBFB0000000000000u64),  // (-1.0, -0.0625)
        (SEA_LEVEL_BITS, SEA_LEVEL_BITS),  // (0.0, 0.0)
        (HALF, 0x3FB0000000000000u64),  // (0.5, 0.0625)
        (0x3FF0000000000000u64, 0x3FD0000000000000u64),  // (1.0, 0.25)
    ];
    proof {
        assert forall|i: int| 0 <= i < pts@.len() implies is_finite((#[trigger] pts@[i]).0)
            && is_finite(pts@[i].1) && (i < pts@.len() - 1 ==> rank(pts@[i].0) < rank(
            pts@[i + 1].0)) by {
            if i == 0 {
                assert(pts@[0] == (0xBFF0000000000000u64, 0xBFB0000000000000u64));
                assert(pts@[1] == (SEA_LEVEL_BITS, SEA_LEVEL_BITS));
            } else if i == 1 {
                assert(pts@[1] == (SEA_LEVEL_BITS, SEA_LEVEL_BITS));
                assert(pts@[2] == (HALF, 0x3FB0000000000000u64));
            } else if i == 2 {
                assert(pts@[2] == (HALF, 0x3FB0000000000000u64));
                assert(pts@[3] == (0x3FF0000000000000u64, 0x3FD0000000000000u64));
            } else if i == 3 {
                assert(pts@[3] == (0x3FF0000000000000u64, 0x3FD0000000000000u64));
            }
        }
        assert forall|i: int| 0 <= i < curve_inputs(pts@).len() implies is_finite(
            #[trigger] curve_inputs(pts@)[i]) by {
            assert(curve_inputs(pts@)[i] == pts@[i].0);
        }
        assert forall|i: int| 0 <= i < curve_outputs(pts@).len() implies is_finite(
            #[trigger] curve_outputs(pts@)[i]) by {
            assert(curve_outputs(pts@)[i] == pts@[i].1);
        }
        assert forall|k: int| 0 <= k < curve_inputs(pts@).len() - 1 implies rank(
            #[trigger] curve_inputs(pts@)[k]) < rank(curve_inputs(pts@)[k + 1]) by {
            assert(curve_inputs(pts@)[k] == pts@[k].0);
            assert(curve_inputs(pts@)[k + 1] == pts@[k + 1].0);
        }
        lemma_adjacent_implies_increasing_pub(curve_inputs(pts@));
    }
    // the higher the continent, the higher its mountains
    let cu = push_node(g, Node::Curve { input: continent, control_points: pts });
    let ad1 = push_node(g, Node::Add { a: ad0, b: cu });
    let se = push_node(g, Node::Select { a: with_hills, b: ad1, control: terrain_type, lower: HALF, upper: 0x408F440000000000u64, falloff: 0x3FD0000000000000u64 });  // bounds [0.5, 1000.5], falloff 0.25
    let ca = push_node(g, Node::Cache { input: se });
    ca
}

/// Continents with badlands at random spots, never inside mountains.
fn continents_with_badlands(g: &mut Graph, seed: u32, with_mountains: usize, base_elev: usize, badlands: usize) -> (h: usize)
    requires
        old(g).wf(),
        with_mountains < old(g)@.len(),
        base_elev < old(g)@.len(),
        badlands < old(g)@.len(),
    ensures
        final(g).wf(),
        extends(final(g)@, old(g)@),
        forall|i: int|
            old(g)@.len() <= i < final(g)@.len() && (#[trigger] node_seed(&final(g)@[i]))
                is Some ==> node_seed(&final(g)@[i]) == Some(seed.wrapping_add(140)),
        forall|i: int, j: int|
            old(g)@.len() <= i < j < final(g)@.len() && (#[trigger] node_seed(&final(g)@[i]))
                is Some ==> node_seed(&final(g)@[i]) != (#[trigger] node_seed(
            &final(g)@[j])),
        old(g)@.len() <= h < final(g)@.len(),
        (final(g)@[h as int] matches Node::Cache { .. }),
{
    let bm = push_node(g, Node::Fbm { seed: seed.wrapping_add(140), frequency: 0x4030800000000000u64, persistence: HALF, lacunarity: CONTINENT_LACUNARITY, octaves: 2 });  // frequency 16.5
    let ad = push_node(g, Node::Add { a: base_elev, b: badlands });
    let se = push_node(g, Node::Select { a: with_mountains, b: ad, control: bm, lower: 0x3FE6000000000000u64, upper: 0x408F458000000000u64, falloff: 0x3FD0000000000000u64 });  // bounds [0.6875, 1000.6875], falloff 0.25
    // badlands poke out of the terrain but never rise above mountains
    let ma = push_node(g, Node::Max { a: with_mountains, b: se });
    let ca = push_node(g, Node::Cache { input: ma });
    ca
}

/// Continents with rivers carved in, deep near sea level and shallow inland.
fn continents_with_rivers(g: &mut Graph, with_badlands: usize, rivers: usize) -> (h: (usize, usize, usize, usize))
    requires
        old(g).wf(),
        with_badlands < old(g)@.len(),
        rivers < old(g)@.len(),
    ensures
        final(g).wf(),
        extends(final(g)@, old(g)@),
        forall|i: int|
            old(g)@.len() <= i < final(g)@.len() ==> (#[trigger] node_seed(&final(g)@[i]))
                is None,
        (final(g)@[h.0 as int] matches Node::ScaleBias { input, scale, bias } && input == rivers && scale == RIVER_SCALE_BITS && bias == RIVER_BIAS_BITS),
        (final(g)@[h.1 as int] matches Node::Add { a, b } && a == with_badlands && b == h.0),
        (final(g)@[h.2 as int] matches Node::Select { a, b, control, lower, upper, falloff } && a == with_badlands && b == h.1 && control == with_badlands && lower == SEA_LEVEL_BITS && upper == CONTINENT_HEIGHT_SCALE_BITS && falloff == CONTINENT_HEIGHT_SCALE_BITS),
        (final(g)@[h.3 as int] matches Node::Cache { input } && input == h.2),
        old(g)@.len() <= h.0 < final(g)@.len() && h.1 < final(g)@.len() && h.2 < final(g)@.len() && h.3 < final(g)@.len(),
{
    // the river signal, rescaled negative so that it only ever carves
    let sb = push_node(g, Node::ScaleBias { input: rivers, scale: RIVER_SCALE_BITS, bias: RIVER_BIAS_BITS });  // scale 0.01171875, bias -0.01171875
    let ad = push_node(g, Node::Add { a: with_badlands, b: sb });
    let se = push_node(g, Node::Select { a: with_badlands, b: ad, control: with_badlands, lower: SEA_LEVEL_BITS, upper: CONTINENT_HEIGHT_SCALE_BITS, falloff: CONTINENT_HEIGHT_SCALE_BITS });  // bounds [0.0, 0.25], falloff 0.25
    let ca = push_node(g, Node::Cache { input: se });
    (sb, ad, se, ca)
}
/// A built planet graph, with handles to the stages that the elevation
/// model's stated properties speak about.
pub struct PlanetGraph {
    /// The graph itself.
    pub graph: Graph,
    /// The continent-definition group: the most widely shared subgraph.
    pub continent_def: usize,
    /// The terrain-type classification group.
    pub terrain_type_def: usize,
    /// The mountainous-terrain group.
    pub mountainous_terrain: usize,
    /// The hilly-terrain group.
    pub hilly_terrain: usize,
    /// The plains-terrain group.
    pub plains_terrain: usize,
    /// The badlands-terrain group.
    pub badlands_terrain: usize,
    /// The river-positions group.
    pub river_positions: usize,
    /// The clamp that holds the shelf at or below sea level.
    pub shelf_clamp: usize,
    /// The scale-and-bias that inverts ridges into oceanic trenches.
    pub shelf_trench: usize,
    /// The sum of trenches and clamped shelf.
    pub shelf_add: usize,
    /// The continental-shelf subgroup.
    pub continental_shelf: usize,
    /// The base continent elevations, with shelves applied.
    pub base_continent_elev: usize,
    /// The terrain just before rivers are carved.
    pub pre_river: usize,
    /// The river signal rescaled negative, in planetary units.
    pub river_offset: usize,
    /// The pre-river terrain with the river offset added.
    pub river_carved: usize,
    /// The blend of carved and uncarved terrain around sea level.
    pub river_blend: usize,
    /// The continents-with-rivers subgroup.
    pub with_rivers: usize,
    /// The finished planet: the graph's output node.
    pub final_node: usize,
}

/// Builds the fixed planet pipeline from a 32-bit base seed.
///
/// The construction always succeeds: the wiring below is proved well formed
/// node by node.  The returned handles point into the graph as stated.
#[verifier::rlimit(100)]
pub fn planet_graph(seed: u32) -> (r: PlanetGraph)
    ensures
        r.graph.wf(),
        r.graph@.len() > 0,
        seeds_distinct(r.graph@),
        (r.graph@[0] matches Node::Fbm { seed: s, .. } && s == seed),
        r.final_node == r.graph@.len() - 1,
        r.continent_def < r.graph@.len(),
        r.terrain_type_def < r.graph@.len(),
        r.mountainous_terrain < r.graph@.len(),
        r.hilly_terrain < r.graph@.len(),
        r.plains_terrain < r.graph@.len(),
        r.badlands_terrain < r.graph@.len(),
        r.river_positions < r.graph@.len(),
        r.base_continent_elev < r.graph@.len(),
        r.pre_river < r.graph@.len(),
        (r.graph@[r.shelf_clamp as int] matches Node::Clamp { lower, upper, .. } && lower
            == SHELF_BOTTOM_BITS && upper == SEA_LEVEL_BITS),
        (r.graph@[r.shelf_trench as int] matches Node::ScaleBias { scale, bias, .. } && scale
            == TRENCH_SCALE_BITS && bias == TRENCH_SCALE_BITS),
        (r.graph@[r.shelf_add as int] matches Node::Add { a, b } && a == r.shelf_trench && b
            == r.shelf_clamp),
        (r.graph@[r.continental_shelf as int] matches Node::Cache { input } && input
            == r.shelf_add),
        (r.graph@[r.river_offset as int] matches Node::ScaleBias { input, scale, bias } && input
            == r.river_positions && scale == RIVER_SCALE_BITS && bias == RIVER_BIAS_BITS),
        (r.graph@[r.river_carved as int] matches Node::Add { a, b } && a == r.pre_river && b
            == r.river_offset),
        (r.graph@[r.river_blend as int] matches Node::Select { a, b, control, lower, upper, falloff } && a
            == r.pre_river && b == r.river_carved && control == r.pre_river && lower
            == SEA_LEVEL_BITS && upper == CONTINENT_HEIGHT_SCALE_BITS && falloff
            == CONTINENT_HEIGHT_SCALE_BITS),
        (r.graph@[r.with_rivers as int] matches Node::Cache { input } && input == r.river_blend),
        (r.graph@[r.final_node as int] matches Node::Cache { input } && input == r.with_rivers),
{
    let mut g = Graph::new();
    let base = base_continent_definition(&mut g, seed);
    let continent = continent_definition(&mut g, seed, base);
    let terrain_type = terrain_type_definition(&mut g, seed, continent);
    let mountain_base = mountain_base_definition(&mut g, seed);
    let high = high_mountainous_terrain(&mut g, seed);
    let low = low_mountainous_terrain(&mut g, seed);
    let mountains = mountainous_terrain(&mut g, mountain_base, high, low);
    let hills = hilly_terrain(&mut g, seed);
    let plains = plains_terrain(&mut g, seed);
    let sand = badlands_sand(&mut g, seed);
    let cliffs = badlands_cliffs(&mut g, seed);
    let badlands = badlands_terrain(&mut g, sand, cliffs);
    let rivers = river_positions(&mut g, seed);
    let scaled_mountains = scaled_mountainous_terrain(&mut g, seed, mountains);
    let scaled_hills = scaled_hilly_terrain(&mut g, seed, hills);
    let scaled_plains = scaled_plains_terrain(&mut g, plains);
    let scaled_badlands = scaled_badlands_terrain(&mut g, badlands);
    let shelf = continental_shelf(&mut g, seed, continent);
    let base_elev = base_continent_elevation(&mut g, continent, shelf.3);
    let with_plains = continents_with_plains(&mut g, base_elev, scaled_plains);
    let with_hills = continents_with_hills(&mut g, with_plains, base_elev, scaled_hills,
        terrain_type);
    let with_mountains = continents_with_mountains(&mut g, with_hills, base_elev,
        scaled_mountains, continent, terrain_type);
    let with_badlands = continents_with_badlands(&mut g, seed, with_mountains, base_elev,
        scaled_badlands);
    let riv = continents_with_rivers(&mut g, with_badlands, rivers);
    let last = push_node(&mut g, Node::Cache { input: riv.3 });
    proof {
        // every pair of noise nodes falls under some stage's seed facts:
        // within a stage by its pairwise clause, across stages because the
        // offset sets are disjoint
        assert forall|i: int, j: int|
            0 <= i < j < g@.len() && node_seed(&g@[i]) is Some implies node_seed(&g@[i])
            != node_seed(&g@[j]) by {}
    }
    PlanetGraph {
        graph: g,
        continent_def: continent,
        terrain_type_def: terrain_type,
        mountainous_terrain: mountains,
        hilly_terrain: hills,
        plains_terrain: plains,
        badlands_terrain: badlands,
        river_positions: rivers,
        shelf_clamp: shelf.0,
        shelf_trench: shelf.1,
        shelf_add: shelf.2,
        continental_shelf: shelf.3,
        base_continent_elev: base_elev,
        pre_river: with_badlands,
        river_offset: riv.0,
        river_carved: riv.1,
        river_blend: riv.2,
        with_rivers: riv.3,
        final_node: last,
    }
}

/// The 32-bit base seed of the pipeline, taken from a 64-bit seed hash by
/// truncation.
pub fn planet_seed(seed: u64) -> (s: u32)
    ensures
        s as int == seed as int % 0x1_0000_0000,
{
    (seed % 0x1_0000_0000) as u32
}

/// Two noise primitives with distinct seed offsets never share a derived
/// seed, whatever the base seed: offsets are added in wrapping 32-bit
/// arithmetic, which is injective in the offset.
pub proof fn lemma_offsets_keep_seeds_distinct(base: u32, o1: u32, o2: u32)
    requires
        o1 != o2,
    ensures
        base.wrapping_add(o1) != base.wrapping_add(o2),
{
}

} // verus!
