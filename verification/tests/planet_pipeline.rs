//! End-to-end tests of the planet pipeline: the verified graph from
//! `assembly` is evaluated with the real noise backend and held against the
//! elevation model's stated properties.

use noise::{Billow, Fbm, MultiFractal, NoiseFn, RidgedMulti, Seedable, Worley};
use planet_generator::assembly::{planet_graph, planet_seed, PlanetGraph};
use planet_generator::field::ElevationField;
use planet_generator::graph::{distinct_node_seeds, Graph, Node};
use planet_generator::seed::seed_to_u64;

// ---- an evaluator for the graph, backed by the noise crate ----

enum Src {
    F(Fbm),
    R(RidgedMulti),
    B(Billow),
    W(Worley),
    T([Fbm; 3]),
    Empty,
}

struct Eval<'a> {
    g: &'a Graph,
    srcs: Vec<Src>,
    memo: Vec<Option<([f64; 3], f64)>>,
}

fn build_eval(g: &Graph) -> Eval<'_> {
    let n = g.len();
    let mut srcs = Vec::with_capacity(n);
    for i in 0..n {
        let s = match g.node(i) {
            Node::Fbm { seed, frequency, persistence, lacunarity, octaves } => Src::F(
                Fbm::new()
                    .set_seed(*seed)
                    .set_frequency(f64::from_bits(*frequency))
                    .set_persistence(f64::from_bits(*persistence))
                    .set_lacunarity(f64::from_bits(*lacunarity))
                    .set_octaves(*octaves),
            ),
            Node::RidgedMulti { seed, frequency, lacunarity, octaves } => Src::R(
                RidgedMulti::new()
                    .set_seed(*seed)
                    .set_frequency(f64::from_bits(*frequency))
                    .set_lacunarity(f64::from_bits(*lacunarity))
                    .set_octaves(*octaves),
            ),
            Node::Billow { seed, frequency, persistence, lacunarity, octaves } => Src::B(
                Billow::new()
                    .set_seed(*seed)
                    .set_frequency(f64::from_bits(*frequency))
                    .set_persistence(f64::from_bits(*persistence))
                    .set_lacunarity(f64::from_bits(*lacunarity))
                    .set_octaves(*octaves),
            ),
            Node::Worley { seed, frequency, displacement, range_enabled } => Src::W(
                Worley::new()
                    .set_seed(*seed)
                    .set_frequency(f64::from_bits(*frequency))
                    .set_displacement(f64::from_bits(*displacement))
                    .enable_range(*range_enabled),
            ),
            Node::Turbulence { seed, frequency, roughness, .. } => {
                let f = f64::from_bits(*frequency);
                Src::T([
                    Fbm::new().set_seed(*seed).set_octaves(*roughness).set_frequency(f),
                    Fbm::new()
                        .set_seed(seed.wrapping_add(1))
                        .set_octaves(*roughness)
                        .set_frequency(f),
                    Fbm::new()
                        .set_seed(seed.wrapping_add(2))
                        .set_octaves(*roughness)
                        .set_frequency(f),
                ])
            }
            _ => Src::Empty,
        };
        srcs.push(s);
    }
    let memo = vec![None; n];
    Eval { g, srcs, memo }
}

fn linear(a: f64, b: f64, x: f64) -> f64 {
    x.mul_add(b - a, a)
}

fn cubic(n0: f64, n1: f64, n2: f64, n3: f64, alpha: f64) -> f64 {
    let p = (n3 - n2) - (n0 - n1);
    let q = (n0 - n1) - p;
    let r = n2 - n0;
    let s = n1;
    p * alpha * alpha * alpha + q * alpha * alpha + r * alpha + s
}

fn s_curve3(x: f64) -> f64 {
    x * x * (3.0 - (x * 2.0))
}

fn clampf(v: f64, lo: f64, hi: f64) -> f64 {
    if v < lo {
        lo
    } else if v > hi {
        hi
    } else {
        v
    }
}

fn curve_eval(cps: &[(u64, u64)], source_value: f64) -> f64 {
    let pts: Vec<(f64, f64)> =
        cps.iter().map(|&(a, b)| (f64::from_bits(a), f64::from_bits(b))).collect();
    assert!(pts.len() >= 4);
    let index_pos = pts.iter().position(|x| x.0 > source_value).unwrap_or(pts.len());
    let index_pos = index_pos.max(2).min(pts.len());
    let last = pts.len() - 1;
    let index0 = (index_pos - 2).min(last);
    let index1 = (index_pos - 1).min(last);
    let index2 = index_pos.min(last);
    let index3 = (index_pos + 1).min(last);
    if index1 == index2 {
        return pts[index1].1;
    }
    let input0 = pts[index1].0;
    let input1 = pts[index2].0;
    let alpha = (source_value - input0) / (input1 - input0);
    cubic(pts[index0].1, pts[index1].1, pts[index2].1, pts[index3].1, alpha)
}

fn terrace_eval(levels: &[u64], source_value: f64) -> f64 {
    let lv: Vec<f64> = levels.iter().map(|&a| f64::from_bits(a)).collect();
    assert!(lv.len() >= 2);
    let index_pos = lv.iter().position(|&x| x >= source_value).unwrap_or(lv.len());
    let last = (lv.len() - 1) as isize;
    let index0 = (index_pos as isize - 1).max(0).min(last) as usize;
    let index1 = (index_pos as isize).max(0).min(last) as usize;
    if index0 == index1 {
        return lv[index1];
    }
    let input0 = lv[index0];
    let input1 = lv[index1];
    let mut alpha = (source_value - input0) / (input1 - input0);
    alpha *= alpha;
    linear(input0, input1, alpha)
}

fn eval(e: &mut Eval<'_>, i: usize, p: [f64; 3]) -> f64 {
    let node = e.g.node(i);
    match node {
        Node::Constant { value } => f64::from_bits(*value),
        Node::Fbm { .. } => match &e.srcs[i] {
            Src::F(f) => f.get(p),
            _ => unreachable!(),
        },
        Node::RidgedMulti { .. } => match &e.srcs[i] {
            Src::R(f) => f.get(p),
            _ => unreachable!(),
        },
        Node::Billow { .. } => match &e.srcs[i] {
            Src::B(f) => f.get(p),
            _ => unreachable!(),
        },
        Node::Worley { .. } => match &e.srcs[i] {
            Src::W(f) => f.get(p),
            _ => unreachable!(),
        },
        Node::Curve { input, control_points } => {
            let input = *input;
            let cps = control_points.clone();
            let v = eval(e, input, p);
            curve_eval(&cps, v)
        }
        Node::Terrace { input, control_levels } => {
            let input = *input;
            let lv = control_levels.clone();
            let v = eval(e, input, p);
            terrace_eval(&lv, v)
        }
        Node::Clamp { input, lower, upper } => {
            let (input, lo, hi) = (*input, f64::from_bits(*lower), f64::from_bits(*upper));
            clampf(eval(e, input, p), lo, hi)
        }
        Node::ScaleBias { input, scale, bias } => {
            let (input, sc, bi) = (*input, f64::from_bits(*scale), f64::from_bits(*bias));
            eval(e, input, p).mul_add(sc, bi)
        }
        Node::Exponent { input, exponent } => {
            let (input, ex) = (*input, f64::from_bits(*exponent));
            let mut v = eval(e, input, p);
            v = (v + 1.0) / 2.0;
            v = v.abs();
            v = v.powf(ex);
            v.abs().mul_add(2.0, -1.0)
        }
        Node::Min { a, b } => {
            let (a, b) = (*a, *b);
            eval(e, a, p).min(eval(e, b, p))
        }
        Node::Max { a, b } => {
            let (a, b) = (*a, *b);
            eval(e, a, p).max(eval(e, b, p))
        }
        Node::Add { a, b } => {
            let (a, b) = (*a, *b);
            eval(e, a, p) + eval(e, b, p)
        }
        Node::Multiply { a, b } => {
            let (a, b) = (*a, *b);
            eval(e, a, p) * eval(e, b, p)
        }
        Node::Blend { a, b, control } => {
            let (a, b, c) = (*a, *b, *control);
            let lower = eval(e, a, p);
            let upper = eval(e, b, p);
            let ctl = eval(e, c, p);
            linear(lower, upper, ctl)
        }
        Node::Select { a, b, control, lower, upper, falloff } => {
            let (a, b, c) = (*a, *b, *control);
            let (lower, upper, falloff) =
                (f64::from_bits(*lower), f64::from_bits(*upper), f64::from_bits(*falloff));
            let control_value = eval(e, c, p);
            if falloff > 0.0 {
                if control_value < (lower - falloff) {
                    eval(e, a, p)
                } else if control_value < (lower + falloff) {
                    let lower_curve = lower - falloff;
                    let upper_curve = lower + falloff;
                    let alpha =
                        s_curve3((control_value - lower_curve) / (upper_curve - lower_curve));
                    let va = eval(e, a, p);
                    let vb = eval(e, b, p);
                    linear(va, vb, alpha)
                } else if control_value < (upper - falloff) {
                    eval(e, b, p)
                } else if control_value < (upper + falloff) {
                    let lower_curve = upper - falloff;
                    let upper_curve = upper + falloff;
                    let alpha =
                        s_curve3((control_value - lower_curve) / (upper_curve - lower_curve));
                    let vb = eval(e, b, p);
                    let va = eval(e, a, p);
                    linear(vb, va, alpha)
                } else {
                    eval(e, a, p)
                }
            } else if control_value < lower || control_value > upper {
                eval(e, a, p)
            } else {
                eval(e, b, p)
            }
        }
        Node::Turbulence { input, power, .. } => {
            let (input, power) = (*input, f64::from_bits(*power));
            let x0 = p[0] + 12414.0 / 65536.0;
            let y0 = p[1] + 65124.0 / 65536.0;
            let z0 = p[2] + 31337.0 / 65536.0;
            let x1 = p[0] + 26519.0 / 65536.0;
            let y1 = p[1] + 18128.0 / 65536.0;
            let z1 = p[2] + 60943.0 / 65536.0;
            let x2 = p[0] + 53820.0 / 65536.0;
            let y2 = p[1] + 11213.0 / 65536.0;
            let z2 = p[2] + 44845.0 / 65536.0;
            let (dx, dy, dz) = match &e.srcs[i] {
                Src::T(d) => (d[0].get([x0, y0, z0]), d[1].get([x1, y1, z1]), d[2].get([x2, y2, z2])),
                _ => unreachable!(),
            };
            let xd = p[0] + (dx * power);
            let yd = p[1] + (dy * power);
            let zd = p[2] + (dz * power);
            eval(e, input, [xd, yd, zd])
        }
        Node::Cache { input } => {
            let input = *input;
            if let Some((cp, cv)) = e.memo[i] {
                if cp == p {
                    return cv;
                }
            }
            let v = eval(e, input, p);
            e.memo[i] = Some((p, v));
            v
        }
    }
}

/// Builds the elevation raster for the planet's final node over the fixed
/// `[-2, 2] x [-2, 2]` window at the given resolution, row-major.
fn build_raster(pg: &PlanetGraph, width: usize, height: usize) -> Vec<u64> {
    let mut e = build_eval(&pg.graph);
    let mut values = vec![0u64; width * height];
    let x_step = 4.0 / width as f64;
    let y_step = 4.0 / height as f64;
    for y in 0..height {
        let current_y = -2.0 + y_step * y as f64;
        for x in 0..width {
            let current_x = -2.0 + x_step * x as f64;
            let v = eval(&mut e, pg.final_node, [current_x, current_y, 0.0]);
            values[x + y * width] = v.to_bits();
        }
    }
    values
}

/// The full elevation path: seed, graph, raster, ordered per-point lookup.
fn elevate(seed64: u64, points: &[(f64, f64)], width: usize, height: usize) -> Vec<f64> {
    let pg = planet_graph(planet_seed(seed64));
    let values = build_raster(&pg, width, height);
    let field = ElevationField::new(width, height, 0f64.to_bits(), values).unwrap();
    let positions: Vec<(usize, usize)> = points.iter().map(|p| (p.0 as usize, p.1 as usize)).collect();
    field.sample(&positions).iter().map(|b| f64::from_bits(*b)).collect()
}

fn grid_points_4x4() -> Vec<(f64, f64)> {
    let mut pts = Vec::new();
    for y in 0..4 {
        for x in 0..4 {
            pts.push((x as f64, y as f64));
        }
    }
    pts
}

// ---- determinism and ordering ----

#[test]
fn repeated_runs_are_bit_identical() {
    let seed = seed_to_u64("determinism");
    let pts = grid_points_4x4();
    let a = elevate(seed, &pts, 4, 4);
    let b = elevate(seed, &pts, 4, 4);
    assert_eq!(a.len(), 16);
    for k in 0..16 {
        assert_eq!(a[k].to_bits(), b[k].to_bits());
    }
}

#[test]
fn output_order_follows_input_order() {
    let seed = seed_to_u64("ordering");
    let pts = grid_points_4x4();
    let base = elevate(seed, &pts, 4, 4);
    let mut rev = pts.clone();
    rev.reverse();
    let swapped = elevate(seed, &rev, 4, 4);
    for k in 0..16 {
        assert_eq!(base[k].to_bits(), swapped[15 - k].to_bits());
    }
}

// ---- range ----

#[test]
fn elevations_stay_within_unit_range() {
    for name in ["alpha", "beta", "42"] {
        let seed = seed_to_u64(name);
        let out = elevate(seed, &grid_points_4x4(), 4, 4);
        for v in out {
            assert!(v >= -1.0 && v <= 1.0, "out of range: {v} for seed {name}");
        }
    }
}

#[test]
fn domain_corners_stay_within_unit_range() {
    let seed = seed_to_u64("corners");
    let pts = vec![(-2.0, -2.0), (2.0, 2.0)];
    let out = elevate(seed, &pts, 4, 4);
    assert_eq!(out.len(), 2);
    for v in out {
        assert!(v >= -1.0 && v <= 1.0, "corner out of range: {v}");
    }
}

// ---- seed sensitivity ----

#[test]
fn different_seeds_give_different_fields() {
    let a = elevate(seed_to_u64("planet one"), &grid_points_4x4(), 4, 4);
    let b = elevate(seed_to_u64("planet two"), &grid_points_4x4(), 4, 4);
    assert!(a.iter().zip(b.iter()).any(|(x, y)| x.to_bits() != y.to_bits()));
}

#[test]
fn planet_graph_seeds_never_collide() {
    for seed in [0u32, 1, 42, 0xFFFF_FF00, u32::MAX] {
        let pg = planet_graph(seed);
        assert!(distinct_node_seeds(&pg.graph));
    }
}

// ---- continental shelf stays at or below sea level ----

#[test]
fn shelf_output_never_exceeds_sea_level() {
    for name in ["shelf a", "shelf b"] {
        let pg = planet_graph(planet_seed(seed_to_u64(name)));
        let mut e = build_eval(&pg.graph);
        for y in 0..8 {
            for x in 0..8 {
                let p = [-2.0 + 0.5 * x as f64, -2.0 + 0.5 * y as f64, 0.0];
                let v = eval(&mut e, pg.continental_shelf, p);
                assert!(v <= 0.0, "shelf above sea level: {v} at {p:?}");
            }
        }
    }
}

// ---- river carving never raises elevation ----

#[test]
fn river_carving_never_raises_elevation() {
    // The guarantee covers river signals within [-1, 1]; the river curves
    // deliberately extrapolate up to 2 outside that band, so points whose
    // signal overshoots 1 are exempt (there the offset turns positive).
    let pg = planet_graph(planet_seed(seed_to_u64("rivers")));
    let mut covered = 0;
    for y in 0..8 {
        for x in 0..8 {
            let p = [-2.0 + 0.5 * x as f64, -2.0 + 0.5 * y as f64, 0.0];
            let mut e = build_eval(&pg.graph);
            let signal = eval(&mut e, pg.river_positions, p);
            let pre = eval(&mut e, pg.pre_river, p);
            let post = eval(&mut e, pg.final_node, p);
            if signal <= 1.0 {
                assert!(post <= pre, "river raised terrain: {pre} -> {post} at {p:?}");
                covered += 1;
            }
            if signal >= -1.0 && signal <= 1.0 {
                assert!(pre - post <= 0.0234375 + 1e-12, "carved too deep at {p:?}");
            }
        }
    }
    assert!(covered > 32, "too few points exercised the carving bound");
}

#[test]
fn river_offset_is_never_positive() {
    // Same bound as `lemma_river_carving_never_raises`: for signals within
    // [-1, 1] the rescaled river offset stays inside [-RIVER_DEPTH, 0].
    let pg = planet_graph(planet_seed(seed_to_u64("river offset")));
    let mut e = build_eval(&pg.graph);
    let mut covered = 0;
    for y in 0..8 {
        for x in 0..8 {
            let p = [-2.0 + 0.5 * x as f64, -2.0 + 0.5 * y as f64, 0.0];
            let signal = eval(&mut e, pg.river_positions, p);
            let v = eval(&mut e, pg.river_offset, p);
            if signal >= -1.0 && signal <= 1.0 {
                assert!(v <= 0.0 && v >= -0.0234375, "river offset out of band: {v}");
                covered += 1;
            }
        }
    }
    assert!(covered >= 8, "too few points exercised the offset band");
}

// ---- cache correctness ----

#[test]
fn cached_subgraph_matches_direct_evaluation() {
    let pg = planet_graph(planet_seed(seed_to_u64("cache")));
    let p = [0.375, -1.25, 0.0];
    let mut shared = build_eval(&pg.graph);
    // walk the whole planet first: the continent definition is read through
    // several downstream consumers and ends up memoized
    let _ = eval(&mut shared, pg.final_node, p);
    let first = eval(&mut shared, pg.continent_def, p);
    let second = eval(&mut shared, pg.continent_def, p);
    let mut fresh = build_eval(&pg.graph);
    let direct = eval(&mut fresh, pg.continent_def, p);
    assert_eq!(first.to_bits(), second.to_bits());
    assert_eq!(first.to_bits(), direct.to_bits());
}

// ---- the anchored end-to-end scenario ----

#[test]
fn reference_grid_for_seed_42() {
    // Anchors the convention: the hashed seed "42", a 4x4 grid over the
    // full [-2, 2] x [-2, 2] window, evaluated with the noise backend.
    let expected: [f64; 16] = [
        -0.8920779770390947,
        0.05328251656018411,
        -0.7434172591032269,
        -0.7074664477699649,
        -0.7668684576941152,
        0.062032190076878685,
        0.13143714272567664,
        0.051340372042084956,
        -0.8768274784567344,
        -0.720744010768207,
        -0.3554687201976776,
        0.04007355987059498,
        -0.5469324978944394,
        -0.5200148022172778,
        -0.7801318317940547,
        -0.5741824534974105,
    ];
    let seed = seed_to_u64("42");
    let out = elevate(seed, &grid_points_4x4(), 4, 4);
    assert_eq!(out.len(), 16);
    for k in 0..16 {
        assert!(
            (out[k] - expected[k]).abs() <= 1e-9,
            "reference mismatch at {k}: {} vs {}",
            out[k],
            expected[k]
        );
    }
}
