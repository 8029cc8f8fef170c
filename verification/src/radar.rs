//! The radar renderer: five metrics on a pentagonal chart.
//!
//! Five axes sit at the fixed angles `i * 72 - 90` degrees (vertex 0 points
//! up); the scene records polar vertices by axis index, keeping the geometry
//! exact. Four concentric reference pentagons sit at `{1,2,3,4}/4` of the
//! maximum radius. Each metric value `v` maps to the radius
//! `log10(v + 1) / 4` of the maximum, clamped to `[0, 1]` — a soft-saturating
//! compression under which values of about 9999 and above reach the rim.
//! The logarithm is evaluated in exact fixed-point arithmetic: with
//! `n = v + 1`, `d = floor(log10 n)` and `p = 10^d`, the scaled value in
//! quarter-milli units is `d * 1000 + (n - p) * 1000 / (9 * p)` — exact at
//! every power of ten and piecewise linear in between.

use vstd::prelude::*;
use vstd::arithmetic::div_mod::{
    lemma_div_is_ordered, lemma_div_multiples_vanish, lemma_div_pos_is_pos,
    lemma_fundamental_div_mod_converse, lemma_multiply_divide_lt,
};
use vstd::string::StringExecFns;

use crate::config::{RenderConfig, MILLI_BOUND};
use crate::scene::{
    lemma_shapes_view_push, shapes_view, Layer, PolarPoint, Position, Shape, ShapeV, Stroke,
    StrokeV,
};

verus! {

/// `10^d`.
pub open spec fn pow10(d: nat) -> int
    decreases d,
{
    if d == 0 {
        1
    } else {
        10 * pow10((d - 1) as nat)
    }
}

/// `floor(log10 n)` for `n >= 1` (0 for smaller arguments).
pub open spec fn log_floor(n: int) -> nat
    decreases n,
{
    if n < 10 {
        0
    } else {
        1 + log_floor(n / 10)
    }
}

/// The radial scale of metric value `v`, in units of 1/4000 of the maximum
/// radius, before clamping: `1000 * log10(v + 1)` under the piecewise-linear
/// fixed-point logarithm.
pub open spec fn scaled_4k(v: int) -> int {
    let n = v + 1;
    let d = log_floor(n);
    let p = pow10(d);
    d * 1000 + (n - p) * 1000 / (9 * p)
}

/// The data radius of metric value `v`: the scale, clamped to one full
/// radius, applied to `max_r`.
pub open spec fn spec_radar_radius(v: int, max_r: int) -> int {
    let s = scaled_4k(v);
    let sc = if s > 4000 {
        4000
    } else {
        s
    };
    sc * max_r / 4000
}

proof fn lemma_pow10_pos(d: nat)
    ensures
        pow10(d) >= 1,
    decreases d,
{
    if d > 0 {
        lemma_pow10_pos((d - 1) as nat);
    }
}

/// `log_floor` is exactly the `d` with `10^d <= n < 10^(d+1)`.
proof fn lemma_log_floor_of_range(n: int, d: nat)
    requires
        pow10(d) <= n < 10 * pow10(d),
    ensures
        log_floor(n) == d,
    decreases d,
{
    lemma_pow10_pos(d);
    if d == 0 {
        assert(log_floor(n) == 0);
    } else {
        lemma_pow10_pos((d - 1) as nat);
        assert(pow10(d) == 10 * pow10((d - 1) as nat));
        assert(n >= 10);
        // n / 10 lies in the previous decade
        lemma_div_is_ordered(pow10(d), n, 10);
        lemma_div_multiples_vanish(pow10((d - 1) as nat), 10);
        assert(pow10(d) / 10 == pow10((d - 1) as nat));
        lemma_div_is_ordered(n, 10 * pow10(d) - 1, 10);
        lemma_fundamental_div_mod_converse(10 * pow10(d) - 1, 10, pow10(d) - 1, 9);
        assert(n / 10 < pow10(d));
        lemma_log_floor_of_range(n / 10, (d - 1) as nat);
    }
}

/// Reaching `10^k` means the floored logarithm is at least `k`.
proof fn lemma_log_floor_at_least(n: int, k: nat)
    requires
        pow10(k) <= n,
    ensures
        log_floor(n) >= k,
    decreases k,
{
    lemma_pow10_pos(k);
    if k > 0 {
        lemma_pow10_pos((k - 1) as nat);
        assert(pow10(k) == 10 * pow10((k - 1) as nat));
        assert(n >= 10);
        lemma_div_is_ordered(pow10(k), n, 10);
        lemma_div_multiples_vanish(pow10((k - 1) as nat), 10);
        lemma_log_floor_at_least(n / 10, (k - 1) as nat);
    }
}

/// Computes the data radius for metric value `v` (see `spec_radar_radius`).
pub fn radar_radius(v: u32, max_r: i64) -> (r: i64)
    requires
        0 <= max_r <= MILLI_BOUND,
    ensures
        r == spec_radar_radius(v as int, max_r as int),
        0 <= r <= max_r,
{
    let n: u64 = v as u64 + 1;
    let mut p: u64 = 1;
    let mut d: u32 = 0;
    proof {
        assert(pow10(10) == 10_000_000_000) by {
            reveal_with_fuel(pow10, 11);
        }
    }
    while p * 10 <= n
        invariant
            n == v as u64 + 1,
            1 <= p <= n,
            d <= 10,
            p == pow10(d as nat),
            n < 10_000_000_000,
        decreases n - p,
    {
        proof {
            if d >= 10 {
                assert(pow10(10) == 10_000_000_000) by {
                    reveal_with_fuel(pow10, 11);
                }
                lemma_pow10_mono(10, d as nat);
                assert(false);
            }
        }
        p = p * 10;
        d = d + 1;
    }
    proof {
        lemma_log_floor_of_range(n as int, d as nat);
    }
    let frac: u64 = (n - p) * 1000 / (9 * p);
    proof {
        lemma_div_pos_is_pos((n - p) * 1000, 9 * p as int);
        assert((n - p) * 1000 < (9 * p) * 1000) by (nonlinear_arith)
            requires
                0 <= n - p < 9 * p,
            ;
        lemma_multiply_divide_lt((n - p) * 1000, 9 * p as int, 1000);
    }
    let s4: u64 = d as u64 * 1000 + frac;
    let sc: u64 = if s4 > 4000 {
        4000
    } else {
        s4
    };
    proof {
        assert(0 <= (sc as int) * max_r <= 4000 * MILLI_BOUND) by (nonlinear_arith)
            requires
                0 <= sc <= 4000,
                0 <= max_r <= MILLI_BOUND,
            ;
        lemma_div_pos_is_pos((sc as int) * max_r, 4000);
        assert((sc as int) * max_r <= 4000 * max_r) by (nonlinear_arith)
            requires
                0 <= sc <= 4000,
                0 <= max_r,
            ;
        lemma_div_is_ordered((sc as int) * max_r, 4000 * max_r, 4000);
        lemma_div_multiples_vanish(max_r as int, 4000);
    }
    (sc as i64) * max_r / 4000
}

proof fn lemma_pow10_mono(a: nat, b: nat)
    requires
        a <= b,
    ensures
        pow10(a) <= pow10(b),
    decreases b,
{
    lemma_pow10_pos(a);
    if a < b {
        lemma_pow10_mono(a, (b - 1) as nat);
        lemma_pow10_pos((b - 1) as nat);
    }
}

/// Radar saturation: a zero metric sits at the center, and any metric of
/// 9999 or more reaches exactly the maximum radius (the scale clamps at 1).
pub proof fn lemma_radar_saturation(v: int, max_r: int)
    requires
        0 <= max_r,
    ensures
        v == 0 ==> spec_radar_radius(v, max_r) == 0,
        v >= 9999 ==> spec_radar_radius(v, max_r) == max_r,
{
    if v == 0 {
        assert(log_floor(1) == 0);
        assert(pow10(0) == 1);
        assert(scaled_4k(0) == 0 * 1000 / 9);
        vstd::arithmetic::div_mod::lemma_div_of0(9);
        assert(scaled_4k(0) == 0);
        assert(0 * max_r == 0) by (nonlinear_arith);
        vstd::arithmetic::div_mod::lemma_div_of0(4000);
    }
    if v >= 9999 {
        let n = v + 1;
        assert(pow10(4) == 10000) by {
            reveal_with_fuel(pow10, 5);
        }
        lemma_log_floor_at_least(n, 4);
        let d = log_floor(n);
        let p = pow10(d);
        lemma_pow10_pos(d);
        lemma_log_floor_le(n);
        assert((n - p) * 1000 >= 0) by (nonlinear_arith)
            requires
                n - p >= 0,
            ;
        lemma_div_pos_is_pos((n - p) * 1000, 9 * p);
        assert(d * 1000 >= 4000);
        assert(scaled_4k(v) >= 4000);
        assert(spec_radar_radius(v, max_r) == 4000 * max_r / 4000);
        lemma_div_multiples_vanish(max_r, 4000);
    }
}

/// `10^(log_floor n) <= n` for `n >= 1`.
proof fn lemma_log_floor_le(n: int)
    requires
        n >= 1,
    ensures
        pow10(log_floor(n)) <= n,
    decreases n,
{
    if n >= 10 {
        lemma_log_floor_le(n / 10);
        lemma_div_pos_is_pos(n, 10);
        assert(pow10(log_floor(n)) == 10 * pow10(log_floor(n / 10)));
        assert(10 * pow10(log_floor(n / 10)) <= 10 * (n / 10)) by (nonlinear_arith)
            requires
                pow10(log_floor(n / 10)) <= n / 10,
            ;
        vstd::arithmetic::div_mod::lemma_fundamental_div_mod(n, 10);
    }
}

/// The five fixed axis labels, in axis order.
pub open spec fn spec_metric_label(i: int) -> Seq<char> {
    if i == 0 {
        "Commit"@
    } else if i == 1 {
        "Issue"@
    } else if i == 2 {
        "PullReq"@
    } else if i == 3 {
        "Review"@
    } else {
        "Repo"@
    }
}

/// Returns the label of radar axis `i`.
pub fn metric_label(i: usize) -> (r: &'static str)
    requires
        i < 5,
    ensures
        r@ == spec_metric_label(i as int),
{
    if i == 0 {
        "Commit"
    } else if i == 1 {
        "Issue"
    } else if i == 2 {
        "PullReq"
    } else if i == 3 {
        "Review"
    } else {
        "Repo"
    }
}

/// The radius of reference ring `k` (1 to 4): `k/4` of the maximum.
pub open spec fn ring_radius(cfg: RenderConfig, k: int) -> int {
    cfg.radar_max_radius * k / 4
}

/// The five vertices of a regular pentagon at radius `r`.
pub open spec fn pentagon_points(r: int) -> Seq<PolarPoint> {
    seq![
        PolarPoint { axis: 0, radius: r as i64 },
        PolarPoint { axis: 1, radius: r as i64 },
        PolarPoint { axis: 2, radius: r as i64 },
        PolarPoint { axis: 3, radius: r as i64 },
        PolarPoint { axis: 4, radius: r as i64 },
    ]
}

/// Reference ring `k`: an unfilled pentagon with a light stroke.
pub open spec fn ring_shape(cfg: RenderConfig, k: int) -> ShapeV {
    ShapeV::PolarPolygon {
        points: pentagon_points(ring_radius(cfg, k)),
        fill: "none"@,
        stroke: Some(StrokeV { color: "#e1e4e8"@, width: 1 }),
    }
}

/// The axis label of metric `i`, placed just beyond the outer ring along
/// its spoke.
pub open spec fn label_shape(cfg: RenderConfig, i: int) -> ShapeV {
    ShapeV::Text {
        pos: Position::Polar {
            axis: i as u8,
            radius: cfg.radar_label_radius,
            dx: cfg.radar_label_dx,
            dy: 0,
        },
        content: spec_metric_label(i),
        fill: "#586069"@,
        font_size: 15,
        anchor_middle: false,
        bold: false,
    }
}

/// The five vertices of the data polygon.
pub open spec fn data_points(cfg: RenderConfig, vals: Seq<u32>) -> Seq<PolarPoint> {
    Seq::new(
        5,
        |i: int|
            PolarPoint {
                axis: i as u8,
                radius: spec_radar_radius(vals[i] as int, cfg.radar_max_radius as int) as i64,
            },
    )
}

/// The translucent green data polygon.
pub open spec fn data_shape(cfg: RenderConfig, vals: Seq<u32>) -> ShapeV {
    ShapeV::PolarPolygon {
        points: data_points(cfg, vals),
        fill: "rgba(46, 160, 67, 0.2)"@,
        stroke: Some(StrokeV { color: "#2ea043"@, width: 2 }),
    }
}

/// The whole radar layer: four reference rings, five axis labels, then the
/// data polygon on top.
pub open spec fn radar_shapes(cfg: RenderConfig, vals: Seq<u32>) -> Seq<ShapeV> {
    seq![
        ring_shape(cfg, 1),
        ring_shape(cfg, 2),
        ring_shape(cfg, 3),
        ring_shape(cfg, 4),
        label_shape(cfg, 0),
        label_shape(cfg, 1),
        label_shape(cfg, 2),
        label_shape(cfg, 3),
        label_shape(cfg, 4),
        data_shape(cfg, vals),
    ]
}

/// Builds reference ring `k` as a shape.
fn make_ring(cfg: &RenderConfig, k: i64) -> (s: Shape)
    requires
        cfg.wf(),
        1 <= k <= 4,
    ensures
        s@ == ring_shape(*cfg, k as int),
{
    proof {
        lemma_div_pos_is_pos(cfg.radar_max_radius * k, 4);
        lemma_div_is_ordered(cfg.radar_max_radius * k, cfg.radar_max_radius * 4, 4);
        assert(cfg.radar_max_radius * k <= cfg.radar_max_radius * 4) by (nonlinear_arith)
            requires
                0 <= cfg.radar_max_radius,
                k <= 4,
            ;
        lemma_div_multiples_vanish(cfg.radar_max_radius as int, 4);
        assert(cfg.radar_max_radius * 4 == 4 * cfg.radar_max_radius) by (nonlinear_arith);
    }
    let r = cfg.radar_max_radius * k / 4;
    let s = Shape::PolarPolygon {
        points: vec![
            PolarPoint { axis: 0, radius: r },
            PolarPoint { axis: 1, radius: r },
            PolarPoint { axis: 2, radius: r },
            PolarPoint { axis: 3, radius: r },
            PolarPoint { axis: 4, radius: r },
        ],
        fill: String::from_str("none"),
        stroke: Some(Stroke { color: String::from_str("#e1e4e8"), width: 1 }),
    };
    proof {
        assert(s@->PolarPolygon_points =~= pentagon_points(ring_radius(*cfg, k as int)));
    }
    s
}

/// Renders the five metrics as the radar layer.
pub fn render_radar(metrics: &[u32; 5], cfg: &RenderConfig) -> (layer: Layer)
    requires
        cfg.wf(),
    ensures
        layer@.name == "radar"@,
        layer@.dx == cfg.radar_dx,
        layer@.dy == cfg.radar_dy,
        layer@.shapes == radar_shapes(*cfg, metrics@),
{
    let mut shapes: Vec<Shape> = Vec::new();
    let ring1 = make_ring(cfg, 1);
    let ring2 = make_ring(cfg, 2);
    let ring3 = make_ring(cfg, 3);
    let ring4 = make_ring(cfg, 4);
    shapes.push(ring1);
    shapes.push(ring2);
    shapes.push(ring3);
    shapes.push(ring4);
    proof {
        let e = Seq::<Shape>::empty();
        lemma_shapes_view_push(e, ring1);
        lemma_shapes_view_push(e.push(ring1), ring2);
        lemma_shapes_view_push(e.push(ring1).push(ring2), ring3);
        lemma_shapes_view_push(e.push(ring1).push(ring2).push(ring3), ring4);
        assert(shapes@ =~= e.push(ring1).push(ring2).push(ring3).push(ring4));
        assert(shapes_view(e) =~= Seq::<ShapeV>::empty());
        assert(shapes_view(shapes@) =~= seq![
            ring_shape(*cfg, 1),
            ring_shape(*cfg, 2),
            ring_shape(*cfg, 3),
            ring_shape(*cfg, 4),
        ] + Seq::new(0nat, |j: int| label_shape(*cfg, j)));
    }
    let mut i: usize = 0;
    while i < 5
        invariant
            cfg.wf(),
            0 <= i <= 5,
            shapes_view(shapes@) == seq![
                ring_shape(*cfg, 1),
                ring_shape(*cfg, 2),
                ring_shape(*cfg, 3),
                ring_shape(*cfg, 4),
            ] + Seq::new(i as nat, |j: int| label_shape(*cfg, j)),
        decreases 5 - i,
    {
        let label = Shape::Text {
            pos: Position::Polar {
                axis: i as u8,
                radius: cfg.radar_label_radius,
                dx: cfg.radar_label_dx,
                dy: 0,
            },
            content: String::from_str(metric_label(i)),
            fill: String::from_str("#586069"),
            font_size: 15,
            anchor_middle: false,
            bold: false,
        };
        assert(label@ == label_shape(*cfg, i as int));
        let ghost pre = shapes@;
        shapes.push(label);
        proof {
            lemma_shapes_view_push(pre, label);
            assert(Seq::new((i + 1) as nat, |j: int| label_shape(*cfg, j)) =~= Seq::new(
                i as nat,
                |j: int| label_shape(*cfg, j),
            ).push(label_shape(*cfg, i as int)));
            assert(shapes_view(shapes@) =~= seq![
                ring_shape(*cfg, 1),
                ring_shape(*cfg, 2),
                ring_shape(*cfg, 3),
                ring_shape(*cfg, 4),
            ] + Seq::new((i + 1) as nat, |j: int| label_shape(*cfg, j)));
        }
        i = i + 1;
    }
    let data = Shape::PolarPolygon {
        points: vec![
            PolarPoint { axis: 0, radius: radar_radius(metrics[0], cfg.radar_max_radius) },
            PolarPoint { axis: 1, radius: radar_radius(metrics[1], cfg.radar_max_radius) },
            PolarPoint { axis: 2, radius: radar_radius(metrics[2], cfg.radar_max_radius) },
            PolarPoint { axis: 3, radius: radar_radius(metrics[3], cfg.radar_max_radius) },
            PolarPoint { axis: 4, radius: radar_radius(metrics[4], cfg.radar_max_radius) },
        ],
        fill: String::from_str("rgba(46, 160, 67, 0.2)"),
        stroke: Some(Stroke { color: String::from_str("#2ea043"), width: 2 }),
    };
    proof {
        assert(data@->PolarPolygon_points =~= data_points(*cfg, metrics@));
        assert(data@ == data_shape(*cfg, metrics@));
    }
    let ghost pre = shapes@;
    shapes.push(data);
    proof {
        lemma_shapes_view_push(pre, data);
        assert(shapes_view(shapes@) =~= radar_shapes(*cfg, metrics@));
    }
    Layer { name: String::from_str("radar"), dx: cfg.radar_dx, dy: cfg.radar_dy, shapes }
}

} // verus!
