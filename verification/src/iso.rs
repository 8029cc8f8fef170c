//! The isometric projector.
//!
//! A fixed-angle axonometric transform from a 3D grid coordinate (column,
//! row, height) to a 2D scene coordinate:
//!
//! ```text
//! screen_x = center_x + (x - y) * step_x
//! screen_y = center_y + (x + y) * step_y - z
//! ```
//!
//! where `step_x = cos(angle) * scale` and `step_y = sin(angle) * scale` are
//! configuration constants in milli-units. Larger `z` raises the point on
//! screen, producing the 3D illusion.

use vstd::prelude::*;

use crate::config::{RenderConfig, GRID_DIM_MAX, HEIGHT_MAX};
use crate::scene::PointMilli;

verus! {

/// The horizontal coordinate `project` assigns to `(x, y)`.
pub open spec fn spec_project_x(cfg: RenderConfig, x: int, y: int) -> int {
    cfg.center_x + (x - y) * cfg.step_x
}

/// The vertical coordinate `project` assigns to `(x, y, z)`.
pub open spec fn spec_project_y(cfg: RenderConfig, x: int, y: int, z: int) -> int {
    cfg.center_y + (x + y) * cfg.step_y - z
}

/// The point `project` assigns to `(x, y, z)`.
pub open spec fn spec_project(cfg: RenderConfig, x: int, y: int, z: int) -> PointMilli {
    PointMilli {
        x: spec_project_x(cfg, x, y) as i64,
        y: spec_project_y(cfg, x, y, z) as i64,
    }
}

/// Maps the grid coordinate `(x, y)` at height `z` (milli-units) to its 2D
/// scene point. A pure function: the result is exactly
/// `spec_project(*cfg, x, y, z)`, so equal inputs always give equal outputs.
pub fn project(cfg: &RenderConfig, x: i64, y: i64, z: i64) -> (p: PointMilli)
    requires
        cfg.wf(),
        0 <= x <= GRID_DIM_MAX,
        0 <= y <= GRID_DIM_MAX,
        0 <= z <= HEIGHT_MAX,
    ensures
        p.x == spec_project_x(*cfg, x as int, y as int),
        p.y == spec_project_y(*cfg, x as int, y as int, z as int),
        p == spec_project(*cfg, x as int, y as int, z as int),
{
    proof {
        lemma_project_in_range(*cfg, x as int, y as int, z as int);
    }
    PointMilli {
        x: cfg.center_x + (x - y) * cfg.step_x,
        y: cfg.center_y + (x + y) * cfg.step_y - z,
    }
}

/// For in-range arguments the projected coordinates fit in an `i64`.
pub proof fn lemma_project_in_range(cfg: RenderConfig, x: int, y: int, z: int)
    requires
        cfg.wf(),
        0 <= x <= GRID_DIM_MAX,
        0 <= y <= GRID_DIM_MAX,
        0 <= z <= HEIGHT_MAX,
    ensures
        -2_000_000_000_000_000_000 <= (x - y) * cfg.step_x <= 2_000_000_000_000_000_000,
        0 <= (x + y) * cfg.step_y <= 2_000_000_000_000_000_000,
        i64::MIN <= spec_project_x(cfg, x, y) <= i64::MAX,
        i64::MIN <= spec_project_y(cfg, x, y, z) <= i64::MAX,
{
    assert((x - y) * cfg.step_x <= 2 * GRID_DIM_MAX * cfg.step_x) by (nonlinear_arith)
        requires
            -GRID_DIM_MAX <= x - y <= GRID_DIM_MAX,
            0 <= cfg.step_x,
        ;
    assert(-(2 * GRID_DIM_MAX * cfg.step_x) <= (x - y) * cfg.step_x) by (nonlinear_arith)
        requires
            -GRID_DIM_MAX <= x - y <= GRID_DIM_MAX,
            0 <= cfg.step_x,
        ;
    assert(0 <= (x + y) * cfg.step_y <= 2 * GRID_DIM_MAX * cfg.step_y) by (nonlinear_arith)
        requires
            0 <= x + y <= 2 * GRID_DIM_MAX,
            0 <= cfg.step_y,
        ;
    assert(2 * GRID_DIM_MAX * cfg.step_x <= 2 * GRID_DIM_MAX * crate::config::MILLI_BOUND)
        by (nonlinear_arith)
        requires
            cfg.step_x <= crate::config::MILLI_BOUND,
            0 <= cfg.step_x,
        ;
    assert(2 * GRID_DIM_MAX * cfg.step_y <= 2 * GRID_DIM_MAX * crate::config::MILLI_BOUND)
        by (nonlinear_arith)
        requires
            cfg.step_y <= crate::config::MILLI_BOUND,
            0 <= cfg.step_y,
        ;
}

/// Projection determinism: the projected point is a function of the
/// configuration and the coordinates alone, so repeated calls of `project`
/// on equal inputs return identical output.
pub proof fn lemma_project_deterministic(
    cfg1: RenderConfig,
    cfg2: RenderConfig,
    x: int,
    y: int,
    z: int,
)
    requires
        cfg1 == cfg2,
    ensures
        spec_project(cfg1, x, y, z) == spec_project(cfg2, x, y, z),
{
}

} // verus!
