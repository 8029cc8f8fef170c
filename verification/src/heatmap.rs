//! The isometric heatmap renderer.
//!
//! Each calendar cell becomes a unit prism whose height grows with the
//! cell's activity count (never below a configured minimum, so zero-count
//! cells still render a thin slab). Every cell emits exactly three
//! quadrilateral faces — left (darkened), right (darkened more), top
//! (undarkened) — drawn in that order, and cells are drawn column-major
//! (week outer, day inner), so later cells overlap earlier ones where their
//! projections intersect.

use vstd::prelude::*;
use vstd::string::StringExecFns;

use crate::color::{darken, spec_darken};
use crate::config::{RenderConfig, GRID_DIM_MAX, HEIGHT_MAX};
use crate::iso::{project, spec_project};
use crate::scene::{lemma_shapes_view_push, shapes_view, Layer, Shape, ShapeV};

verus! {

/// One day of the contribution calendar: an activity count and an optional
/// pre-assigned color.
#[derive(Clone, Debug)]
pub struct Cell {
    pub count: u32,
    pub color: Option<String>,
}

/// Spec-level value of a `Cell`.
pub struct CellV {
    pub count: u32,
    pub color: Option<Seq<char>>,
}

impl View for Cell {
    type V = CellV;

    open spec fn view(&self) -> CellV {
        CellV {
            count: self.count,
            color: match &self.color {
                Some(c) => Some(c@),
                None => None,
            },
        }
    }
}

/// One week of the calendar: a column of up to seven days. A partial final
/// week is permitted; the renderer iterates only over present days.
#[derive(Clone, Debug)]
pub struct Week {
    pub days: Vec<Cell>,
}

impl View for Week {
    type V = Seq<CellV>;

    open spec fn view(&self) -> Seq<CellV> {
        self.days@.map_values(|c: Cell| c@)
    }
}

/// The spec-level value of a whole calendar grid.
pub open spec fn grid_view(weeks: Seq<Week>) -> Seq<Seq<CellV>> {
    weeks.map_values(|w: Week| w@)
}

/// The grid is small enough for exact `i64` projection.
pub open spec fn grid_in_range(weeks: Seq<Seq<CellV>>) -> bool {
    &&& weeks.len() < GRID_DIM_MAX
    &&& forall|i: int| 0 <= i < weeks.len() ==> #[trigger] weeks[i].len() < GRID_DIM_MAX
}

/// The seasonal-bucket color for week `week_idx` with activity `count`:
/// zero-count cells always take the neutral background color; otherwise the
/// week index is partitioned into four fixed quarters, each with one
/// palette color.
pub open spec fn spec_seasonal_color(week_idx: int, count: int) -> Seq<char> {
    if count == 0 {
        "#ebedf0"@
    } else if week_idx <= 12 {
        "#c6e48b"@
    } else if week_idx <= 25 {
        "#f4e04d"@
    } else if week_idx <= 38 {
        "#a3a3a3"@
    } else {
        "#d1a3d1"@
    }
}

/// Returns the seasonal-bucket color for a cell (see `spec_seasonal_color`).
pub fn get_seasonal_color(week_idx: usize, count: u32) -> (r: String)
    ensures
        r@ == spec_seasonal_color(week_idx as int, count as int),
{
    if count == 0 {
        String::from_str("#ebedf0")
    } else if week_idx <= 12 {
        String::from_str("#c6e48b")
    } else if week_idx <= 25 {
        String::from_str("#f4e04d")
    } else if week_idx <= 38 {
        String::from_str("#a3a3a3")
    } else {
        String::from_str("#d1a3d1")
    }
}

/// The fill color a cell resolves to: its own color if pre-colored,
/// otherwise the seasonal-bucket color of its week.
pub open spec fn cell_base_color(x: int, cell: CellV) -> Seq<char> {
    match cell.color {
        Some(c) => c,
        None => spec_seasonal_color(x, cell.count as int),
    }
}

/// The bar height of a cell: `count * height_scale`, never below
/// `min_height`.
pub open spec fn spec_bar_height(cfg: RenderConfig, count: int) -> int {
    if count * cfg.height_scale < cfg.min_height {
        cfg.min_height as int
    } else {
        count * cfg.height_scale
    }
}

/// Computes the bar height of a cell, in milli-units.
pub fn bar_height(cfg: &RenderConfig, count: u32) -> (h: i64)
    requires
        cfg.wf(),
    ensures
        h == spec_bar_height(*cfg, count as int),
        0 <= h <= HEIGHT_MAX,
{
    proof {
        assert(0 <= (count as int) * cfg.height_scale <= (u32::MAX as int) * 1_000_000)
            by (nonlinear_arith)
            requires
                0 <= count <= u32::MAX,
                0 <= cfg.height_scale <= 1_000_000,
            ;
    }
    let scaled = (count as i64) * cfg.height_scale;
    if scaled < cfg.min_height {
        cfg.min_height
    } else {
        scaled
    }
}

/// The three faces of the prism for the cell at week `x`, day `y`: left,
/// right, then top, each a simple quadrilateral over the projected prism
/// corners.
pub open spec fn cell_shapes(cfg: RenderConfig, x: int, y: int, cell: CellV) -> Seq<ShapeV> {
    let h = spec_bar_height(cfg, cell.count as int);
    let top_back = spec_project(cfg, x, y, h);
    let top_left = spec_project(cfg, x + 1, y, h);
    let top_right = spec_project(cfg, x, y + 1, h);
    let top_front = spec_project(cfg, x + 1, y + 1, h);
    let bot_left = spec_project(cfg, x + 1, y, 0);
    let bot_right = spec_project(cfg, x, y + 1, 0);
    let bot_front = spec_project(cfg, x + 1, y + 1, 0);
    let base = cell_base_color(x, cell);
    seq![
        ShapeV::Polygon {
            points: seq![top_left, top_front, bot_front, bot_left],
            fill: spec_darken(base, cfg.left_shade as int),
            stroke: None,
        },
        ShapeV::Polygon {
            points: seq![top_right, top_front, bot_front, bot_right],
            fill: spec_darken(base, cfg.right_shade as int),
            stroke: None,
        },
        ShapeV::Polygon {
            points: seq![top_back, top_left, top_front, top_right],
            fill: base,
            stroke: None,
        },
    ]
}

/// The faces of the first `days.len()` cells of week `x`, in day order.
pub open spec fn week_shapes(cfg: RenderConfig, x: int, days: Seq<CellV>) -> Seq<ShapeV>
    decreases days.len(),
{
    if days.len() == 0 {
        Seq::empty()
    } else {
        week_shapes(cfg, x, days.drop_last()) + cell_shapes(
            cfg,
            x,
            days.len() - 1,
            days.last(),
        )
    }
}

/// The faces of the whole grid, week by week.
pub open spec fn grid_shapes(cfg: RenderConfig, weeks: Seq<Seq<CellV>>) -> Seq<ShapeV>
    decreases weeks.len(),
{
    if weeks.len() == 0 {
        Seq::empty()
    } else {
        grid_shapes(cfg, weeks.drop_last()) + week_shapes(
            cfg,
            weeks.len() - 1,
            weeks.last(),
        )
    }
}

/// The number of cells in the grid.
pub open spec fn total_cells(weeks: Seq<Seq<CellV>>) -> int
    decreases weeks.len(),
{
    if weeks.len() == 0 {
        0
    } else {
        total_cells(weeks.drop_last()) + weeks.last().len()
    }
}

proof fn lemma_week_face_count(cfg: RenderConfig, x: int, days: Seq<CellV>)
    ensures
        week_shapes(cfg, x, days).len() == 3 * days.len(),
    decreases days.len(),
{
    if days.len() > 0 {
        lemma_week_face_count(cfg, x, days.drop_last());
    }
}

/// Face count invariant: the heatmap emits exactly three quadrilateral
/// faces per cell — zero-count cells included, since they still render a
/// minimum-height slab.
pub proof fn lemma_heatmap_face_count(cfg: RenderConfig, weeks: Seq<Seq<CellV>>)
    ensures
        grid_shapes(cfg, weeks).len() == 3 * total_cells(weeks),
    decreases weeks.len(),
{
    if weeks.len() > 0 {
        lemma_heatmap_face_count(cfg, weeks.drop_last());
        lemma_week_face_count(cfg, weeks.len() - 1, weeks.last());
    }
}

/// Renders the calendar grid as the heatmap layer.
pub fn render_heatmap(weeks: &Vec<Week>, cfg: &RenderConfig) -> (layer: Layer)
    requires
        cfg.wf(),
        grid_in_range(grid_view(weeks@)),
    ensures
        layer@.name == "heatmap"@,
        layer@.dx == cfg.heat_dx,
        layer@.dy == cfg.heat_dy,
        layer@.shapes == grid_shapes(*cfg, grid_view(weeks@)),
        layer@.shapes.len() == 3 * total_cells(grid_view(weeks@)),
{
    proof {
        lemma_heatmap_face_count(*cfg, grid_view(weeks@));
    }
    let ghost gv = grid_view(weeks@);
    let mut shapes: Vec<Shape> = Vec::new();
    let mut x: usize = 0;
    proof {
        assert(shapes_view(shapes@) =~= grid_shapes(*cfg, gv.take(0)));
    }
    while x < weeks.len()
        invariant
            cfg.wf(),
            grid_in_range(gv),
            gv == grid_view(weeks@),
            0 <= x <= weeks.len(),
            gv.len() == weeks.len(),
            shapes_view(shapes@) == grid_shapes(*cfg, gv.take(x as int)),
        decreases weeks.len() - x,
    {
        let week = &weeks[x];
        let ghost wv = gv[x as int];
        proof {
            assert(wv == weeks@[x as int]@);
            assert(wv.len() == week.days@.len());
        }
        let mut y: usize = 0;
        proof {
            assert(wv.take(0) =~= Seq::<CellV>::empty());
            assert(shapes_view(shapes@) =~= grid_shapes(*cfg, gv.take(x as int)) + week_shapes(
                *cfg,
                x as int,
                wv.take(0),
            ));
        }
        while y < week.days.len()
            invariant
                cfg.wf(),
                grid_in_range(gv),
                gv == grid_view(weeks@),
                0 <= x < weeks.len(),
                gv.len() == weeks.len(),
                week == weeks@[x as int],
                wv == gv[x as int],
                wv.len() == week.days@.len(),
                0 <= y <= week.days.len(),
                shapes_view(shapes@) == grid_shapes(*cfg, gv.take(x as int)) + week_shapes(
                    *cfg,
                    x as int,
                    wv.take(y as int),
                ),
            decreases week.days.len() - y,
        {
            let cell = &week.days[y];
            proof {
                assert(cell@ == wv[y as int]);
            }
            let h = bar_height(cfg, cell.count);
            let xi = x as i64;
            let yi = y as i64;
            let top_back = project(cfg, xi, yi, h);
            let top_left = project(cfg, xi + 1, yi, h);
            let top_right = project(cfg, xi, yi + 1, h);
            let top_front = project(cfg, xi + 1, yi + 1, h);
            let bot_left = project(cfg, xi + 1, yi, 0);
            let bot_right = project(cfg, xi, yi + 1, 0);
            let bot_front = project(cfg, xi + 1, yi + 1, 0);
            let base = match &cell.color {
                Some(c) => c.clone(),
                None => get_seasonal_color(x, cell.count),
            };
            let left_face = Shape::Polygon {
                points: vec![top_left, top_front, bot_front, bot_left],
                fill: darken(base.as_str(), cfg.left_shade),
                stroke: None,
            };
            let right_face = Shape::Polygon {
                points: vec![top_right, top_front, bot_front, bot_right],
                fill: darken(base.as_str(), cfg.right_shade),
                stroke: None,
            };
            let top_face = Shape::Polygon {
                points: vec![top_back, top_left, top_front, top_right],
                fill: base,
                stroke: None,
            };
            proof {
                let cs = cell_shapes(*cfg, x as int, y as int, wv[y as int]);
                assert(left_face@->Polygon_points =~= cs[0]->Polygon_points);
                assert(right_face@->Polygon_points =~= cs[1]->Polygon_points);
                assert(top_face@->Polygon_points =~= cs[2]->Polygon_points);
                assert(left_face@ == cs[0]);
                assert(right_face@ == cs[1]);
                assert(top_face@ == cs[2]);
            }
            let ghost pre = shapes@;
            shapes.push(left_face);
            shapes.push(right_face);
            shapes.push(top_face);
            proof {
                lemma_shapes_view_push(pre, left_face);
                lemma_shapes_view_push(pre.push(left_face), right_face);
                lemma_shapes_view_push(pre.push(left_face).push(right_face), top_face);
                let cs = cell_shapes(*cfg, x as int, y as int, wv[y as int]);
                assert(wv.take(y + 1).drop_last() =~= wv.take(y as int));
                assert(wv.take(y + 1).last() == wv[y as int]);
                assert(week_shapes(*cfg, x as int, wv.take(y + 1)) == week_shapes(
                    *cfg,
                    x as int,
                    wv.take(y as int),
                ) + cs);
                assert(shapes_view(shapes@) =~= grid_shapes(*cfg, gv.take(x as int))
                    + week_shapes(*cfg, x as int, wv.take(y + 1)));
            }
            y = y + 1;
        }
        proof {
            assert(wv.take(wv.len() as int) =~= wv);
            assert(gv.take(x + 1).drop_last() =~= gv.take(x as int));
            assert(gv.take(x + 1).last() == gv[x as int]);
            assert(grid_shapes(*cfg, gv.take(x + 1)) == grid_shapes(*cfg, gv.take(x as int))
                + week_shapes(*cfg, x as int, wv));
        }
        x = x + 1;
    }
    proof {
        assert(gv.take(gv.len() as int) =~= gv);
    }
    Layer { name: String::from_str("heatmap"), dx: cfg.heat_dx, dy: cfg.heat_dy, shapes }
}

} // verus!
