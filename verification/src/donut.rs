//! The donut (annular proportion) renderer and its tiled legend.
//!
//! Every category becomes one annular slice whose sweep is its exact share
//! `magnitude / total` of a full turn, so the slices tile the circle with no
//! gap: the angles sum to exactly one turn. Slices are laid out in the order
//! the categories are given; callers wanting the conventional
//! largest-first layout sort with [`sort_categories_desc`] beforehand.
//! A total magnitude of zero would leave the slice angles undefined, so the
//! renderer's documented policy is to emit an empty layer in that case.
//!
//! The legend tiles entries into columns of `legend_rows` rows: entry `i`
//! sits in column `i / legend_rows`, row `i % legend_rows`, and draws a
//! small color swatch plus the category name.

use vstd::prelude::*;
use vstd::multiset::Multiset;
use vstd::string::StringExecFns;

use crate::config::{RenderConfig, CATEGORY_MAX};
use crate::scene::{
    lemma_shapes_view_push, shapes_view, AnnulusArc, Layer, PointMilli, Position, Shape, ShapeV,
};

verus! {

/// One category of the proportion chart: a unique name, a non-negative
/// magnitude, and a fill color.
#[derive(Clone, Debug)]
pub struct Category {
    pub name: String,
    pub magnitude: u64,
    pub color: String,
}

/// Spec-level value of a `Category`.
pub struct CategoryV {
    pub name: Seq<char>,
    pub magnitude: u64,
    pub color: Seq<char>,
}

impl View for Category {
    type V = CategoryV;

    open spec fn view(&self) -> CategoryV {
        CategoryV { name: self.name@, magnitude: self.magnitude, color: self.color@ }
    }
}

/// The spec-level values of a sequence of categories.
pub open spec fn cats_view(s: Seq<Category>) -> Seq<CategoryV> {
    s.map_values(|c: Category| c@)
}

/// The summed magnitude of the first `i` categories.
pub open spec fn prefix_mag(cats: Seq<CategoryV>, i: int) -> int
    decreases i,
{
    if i <= 0 {
        0
    } else {
        prefix_mag(cats, i - 1) + cats[i - 1].magnitude
    }
}

/// The total magnitude of all categories.
pub open spec fn total_magnitude(cats: Seq<CategoryV>) -> int {
    prefix_mag(cats, cats.len() as int)
}

/// Prefix magnitudes grow monotonically (magnitudes are non-negative).
pub proof fn lemma_prefix_mag_mono(cats: Seq<CategoryV>, i: int, j: int)
    requires
        0 <= i <= j,
    ensures
        0 <= prefix_mag(cats, i) <= prefix_mag(cats, j),
    decreases j,
{
    if j > 0 && i < j {
        lemma_prefix_mag_mono(cats, i, j - 1);
    } else if j > 0 && i == j {
        lemma_prefix_mag_mono(cats, i - 1, j - 1);
    }
}

/// The annular slice of category `i`: it sweeps from `prefix_mag(i)` to
/// `prefix_mag(i) + magnitude` out of `total` of a full turn.
pub open spec fn donut_arc(cfg: RenderConfig, cats: Seq<CategoryV>, i: int) -> AnnulusArc {
    AnnulusArc {
        start_num: prefix_mag(cats, i) as u64,
        sweep_num: cats[i].magnitude,
        denom: total_magnitude(cats) as u64,
        outer_radius: cfg.donut_outer,
        inner_radius: cfg.donut_inner,
        large_arc: 2 * cats[i].magnitude > total_magnitude(cats),
    }
}

/// The legend position of entry `i`: its column is `i / legend_rows`, its
/// row `i % legend_rows`.
pub open spec fn legend_origin_x(cfg: RenderConfig, i: int) -> int {
    cfg.legend_x + (i / cfg.legend_rows as int) * cfg.legend_col_step
}

pub open spec fn legend_origin_y(cfg: RenderConfig, i: int) -> int {
    cfg.legend_y + (i % cfg.legend_rows as int) * cfg.legend_row_step
}

/// The square color swatch of legend entry `i`.
pub open spec fn legend_swatch_points(cfg: RenderConfig, i: int) -> Seq<PointMilli> {
    let x0 = legend_origin_x(cfg, i);
    let y0 = legend_origin_y(cfg, i);
    let s = cfg.swatch_size;
    seq![
        PointMilli { x: x0 as i64, y: y0 as i64 },
        PointMilli { x: (x0 + s) as i64, y: y0 as i64 },
        PointMilli { x: (x0 + s) as i64, y: (y0 + s) as i64 },
        PointMilli { x: x0 as i64, y: (y0 + s) as i64 },
    ]
}

/// The three shapes of category `i`: its slice, its legend swatch, and its
/// legend label.
pub open spec fn cat_shapes(cfg: RenderConfig, cats: Seq<CategoryV>, i: int) -> Seq<ShapeV> {
    seq![
        ShapeV::Path { arc: donut_arc(cfg, cats, i), fill: cats[i].color },
        ShapeV::Polygon {
            points: legend_swatch_points(cfg, i),
            fill: cats[i].color,
            stroke: None,
        },
        ShapeV::Text {
            pos: Position::Xy {
                x: (legend_origin_x(cfg, i) + cfg.legend_label_dx) as i64,
                y: (legend_origin_y(cfg, i) + cfg.legend_label_dy) as i64,
            },
            content: cats[i].name,
            fill: "#586069"@,
            font_size: 14,
            anchor_middle: false,
            bold: false,
        },
    ]
}

/// The shapes of the first `i` categories, in order.
pub open spec fn donut_shapes_upto(cfg: RenderConfig, cats: Seq<CategoryV>, i: int) -> Seq<
    ShapeV,
>
    decreases i,
{
    if i <= 0 {
        Seq::empty()
    } else {
        donut_shapes_upto(cfg, cats, i - 1) + cat_shapes(cfg, cats, i - 1)
    }
}

/// The whole donut layer: empty when the total magnitude is zero (the
/// documented degenerate-input policy), otherwise slice + swatch + label
/// per category.
pub open spec fn donut_shapes(cfg: RenderConfig, cats: Seq<CategoryV>) -> Seq<ShapeV> {
    if total_magnitude(cats) == 0 {
        Seq::empty()
    } else {
        donut_shapes_upto(cfg, cats, cats.len() as int)
    }
}

/// Angle closure: the slices abut — slice 0 starts at zero, each next slice
/// starts where the previous one ends — and the last slice ends at exactly
/// `total`, the common denominator. The slice sweeps therefore sum to
/// exactly one full turn (`2 * pi` after scaling by `1 / denom`).
pub proof fn lemma_donut_angle_closure(cfg: RenderConfig, cats: Seq<CategoryV>)
    requires
        total_magnitude(cats) <= u64::MAX,
    ensures
        cats.len() > 0 ==> donut_arc(cfg, cats, 0).start_num == 0,
        forall|i: int|
            0 <= i < cats.len() ==> #[trigger] donut_arc(cfg, cats, i).sweep_num
                == cats[i].magnitude,
        forall|i: int|
            0 <= i < cats.len() - 1 ==> #[trigger] donut_arc(cfg, cats, i + 1).start_num
                == donut_arc(cfg, cats, i).start_num + donut_arc(cfg, cats, i).sweep_num,
        cats.len() > 0 ==> donut_arc(cfg, cats, cats.len() - 1).start_num + donut_arc(
            cfg,
            cats,
            cats.len() - 1,
        ).sweep_num == total_magnitude(cats),
{
    assert forall|i: int| 0 <= i < cats.len() implies #[trigger] donut_arc(
        cfg,
        cats,
        i,
    ).start_num == prefix_mag(cats, i) by {
        lemma_prefix_mag_mono(cats, i, cats.len() as int);
    }
    assert forall|i: int| 0 <= i < cats.len() - 1 implies #[trigger] donut_arc(
        cfg,
        cats,
        i + 1,
    ).start_num == donut_arc(cfg, cats, i).start_num + donut_arc(cfg, cats, i).sweep_num by {
        lemma_prefix_mag_mono(cats, i + 1, cats.len() as int);
        lemma_prefix_mag_mono(cats, i, cats.len() as int);
    }
    if cats.len() > 0 {
        lemma_prefix_mag_mono(cats, cats.len() - 1, cats.len() as int);
    }
}

/// Sorts categories into descending order of magnitude (a permutation of
/// the input), giving the conventional reproducible largest-first slice and
/// legend order.
pub fn sort_categories_desc(cats: Vec<Category>) -> (r: Vec<Category>)
    ensures
        r@.len() == cats@.len(),
        forall|i: int, j: int|
            0 <= i <= j < r@.len() ==> #[trigger] r@[i].magnitude >= #[trigger] r@[j].magnitude,
        r@.to_multiset() == cats@.to_multiset(),
{
    broadcast use vstd::seq_lib::group_to_multiset_ensures;
    broadcast use vstd::multiset::group_multiset_axioms;

    let ghost orig = cats@;
    let mut rest = cats;
    let mut out: Vec<Category> = Vec::new();
    proof {
        assert(out@.to_multiset() =~= Multiset::<Category>::empty());
        assert(out@.to_multiset().add(rest@.to_multiset()) =~= orig.to_multiset());
    }
    while rest.len() > 0
        invariant
            out@.len() + rest@.len() == orig.len(),
            forall|i: int, j: int|
                0 <= i <= j < out@.len() ==> #[trigger] out@[i].magnitude
                    >= #[trigger] out@[j].magnitude,
            forall|i: int, k: int|
                0 <= i < out@.len() && 0 <= k < rest@.len() ==> #[trigger] out@[i].magnitude
                    >= #[trigger] rest@[k].magnitude,
            out@.to_multiset().add(rest@.to_multiset()) == orig.to_multiset(),
        decreases rest@.len(),
    {
        let mut m: usize = 0;
        let mut t: usize = 1;
        while t < rest.len()
            invariant
                0 <= m < t,
                1 <= t <= rest@.len(),
                m < rest@.len(),
                forall|k: int| 0 <= k < t && k < rest@.len() ==> rest@[m as int].magnitude
                    >= #[trigger] rest@[k].magnitude,
            decreases rest@.len() - t,
        {
            if rest[t].magnitude > rest[m].magnitude {
                m = t;
            }
            t = t + 1;
        }
        let ghost pre_rest = rest@;
        let ghost pre_out = out@;
        let c = rest.remove(m);
        out.push(c);
        proof {
            vstd::seq_lib::to_multiset_remove::<Category>(pre_rest, m as int);
            vstd::seq_lib::to_multiset_build::<Category>(pre_out, c);
            assert(pre_rest.remove(m as int).to_multiset() == pre_rest.to_multiset().remove(c));
            assert(pre_out.push(c).to_multiset() =~= pre_out.to_multiset().insert(c));
            assert(pre_rest.to_multiset().count(c) > 0) by {
                pre_rest.to_multiset_ensures();
                assert(pre_rest[m as int] == c);
                assert(pre_rest.contains(c));
            }
            assert(out@.to_multiset().add(rest@.to_multiset()) =~= orig.to_multiset());
            assert forall|i: int, k: int|
                0 <= i < out@.len() && 0 <= k < rest@.len() implies #[trigger] out@[i].magnitude
                    >= #[trigger] rest@[k].magnitude by {
                assert(rest@[k] == if k < m { pre_rest[k] } else { pre_rest[k + 1] });
                assert(c.magnitude >= rest@[k].magnitude);
            }
        }
    }
    out
}

/// Renders the categories, in the given order, as the donut layer.
pub fn render_donut(cats: &Vec<Category>, cfg: &RenderConfig) -> (layer: Layer)
    requires
        cfg.wf(),
        cats@.len() < CATEGORY_MAX,
        total_magnitude(cats_view(cats@)) <= u64::MAX,
    ensures
        layer@.name == "donut"@,
        layer@.dx == cfg.donut_dx,
        layer@.dy == cfg.donut_dy,
        layer@.shapes == donut_shapes(*cfg, cats_view(cats@)),
        total_magnitude(cats_view(cats@)) == 0 ==> layer@.shapes == Seq::<ShapeV>::empty(),
{
    let ghost cv = cats_view(cats@);
    let mut total: u64 = 0;
    let mut i: usize = 0;
    while i < cats.len()
        invariant
            cv == cats_view(cats@),
            cv.len() == cats@.len(),
            total_magnitude(cv) <= u64::MAX,
            0 <= i <= cats.len(),
            total == prefix_mag(cv, i as int),
        decreases cats.len() - i,
    {
        proof {
            lemma_prefix_mag_mono(cv, i + 1, cv.len() as int);
        }
        total = total + cats[i].magnitude;
        i = i + 1;
    }
    assert(total == total_magnitude(cv));
    if total == 0 {
        let layer = Layer {
            name: String::from_str("donut"),
            dx: cfg.donut_dx,
            dy: cfg.donut_dy,
            shapes: Vec::new(),
        };
        proof {
            assert(layer@.shapes =~= donut_shapes(*cfg, cv));
        }
        return layer;
    }
    let mut shapes: Vec<Shape> = Vec::new();
    let mut cum: u64 = 0;
    let mut i: usize = 0;
    proof {
        assert(shapes_view(shapes@) =~= donut_shapes_upto(*cfg, cv, 0));
    }
    while i < cats.len()
        invariant
            cfg.wf(),
            cv == cats_view(cats@),
            cv.len() == cats@.len(),
            cats@.len() < CATEGORY_MAX,
            total_magnitude(cv) <= u64::MAX,
            total == total_magnitude(cv),
            0 <= i <= cats.len(),
            cum == prefix_mag(cv, i as int),
            shapes_view(shapes@) == donut_shapes_upto(*cfg, cv, i as int),
        decreases cats.len() - i,
    {
        let cat = &cats[i];
        proof {
            assert(cat@ == cv[i as int]);
            lemma_prefix_mag_mono(cv, i + 1, cv.len() as int);
            lemma_prefix_mag_mono(cv, i as int, i + 1);
        }
        let mag = cat.magnitude;
        let large_arc = mag > total - mag;
        let arc = AnnulusArc {
            start_num: cum,
            sweep_num: mag,
            denom: total,
            outer_radius: cfg.donut_outer,
            inner_radius: cfg.donut_inner,
            large_arc,
        };
        assert(arc == donut_arc(*cfg, cv, i as int));
        let slice = Shape::Path { arc, fill: cat.color.clone() };
        let rows = cfg.legend_rows;
        let col = (i as u64) / rows;
        let row = (i as u64) % rows;
        proof {
            assert(col <= i as u64) by (nonlinear_arith)
                requires
                    rows >= 1,
                    col == (i as u64) / rows,
                ;
            assert(0 <= (col as int) * cfg.legend_col_step <= (CATEGORY_MAX as int)
                * 1_000_000_000_000) by (nonlinear_arith)
                requires
                    0 <= col < CATEGORY_MAX,
                    0 <= cfg.legend_col_step <= 1_000_000_000_000,
                ;
            assert(0 <= (row as int) * cfg.legend_row_step <= 1000 * 1_000_000_000_000)
                by (nonlinear_arith)
                requires
                    0 <= row < 1000,
                    0 <= cfg.legend_row_step <= 1_000_000_000_000,
                ;
        }
        let x0 = cfg.legend_x + (col as i64) * cfg.legend_col_step;
        let y0 = cfg.legend_y + (row as i64) * cfg.legend_row_step;
        assert(x0 == legend_origin_x(*cfg, i as int));
        assert(y0 == legend_origin_y(*cfg, i as int));
        let s = cfg.swatch_size;
        let swatch = Shape::Polygon {
            points: vec![
                PointMilli { x: x0, y: y0 },
                PointMilli { x: x0 + s, y: y0 },
                PointMilli { x: x0 + s, y: y0 + s },
                PointMilli { x: x0, y: y0 + s },
            ],
            fill: cat.color.clone(),
            stroke: None,
        };
        let label = Shape::Text {
            pos: Position::Xy { x: x0 + cfg.legend_label_dx, y: y0 + cfg.legend_label_dy },
            content: cat.name.clone(),
            fill: String::from_str("#586069"),
            font_size: 14,
            anchor_middle: false,
            bold: false,
        };
        proof {
            let cs = cat_shapes(*cfg, cv, i as int);
            assert(swatch@->Polygon_points =~= cs[1]->Polygon_points);
            assert(slice@ == cs[0]);
            assert(swatch@ == cs[1]);
            assert(label@ == cs[2]);
        }
        let ghost pre = shapes@;
        shapes.push(slice);
        shapes.push(swatch);
        shapes.push(label);
        proof {
            lemma_shapes_view_push(pre, slice);
            lemma_shapes_view_push(pre.push(slice), swatch);
            lemma_shapes_view_push(pre.push(slice).push(swatch), label);
            assert(shapes_view(shapes@) =~= donut_shapes_upto(*cfg, cv, i + 1));
        }
        cum = cum + mag;
        i = i + 1;
    }
    Layer { name: String::from_str("donut"), dx: cfg.donut_dx, dy: cfg.donut_dy, shapes }
}

} // verus!
