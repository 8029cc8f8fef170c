//! Canvas and chart configuration.
//!
//! All lengths are in milli-units: one thousandth of a canvas unit. The
//! configuration is an explicit immutable value threaded into every renderer,
//! so the engine is reentrant and testable with varying canvas geometry.

use vstd::prelude::*;

verus! {

/// Upper bound on the magnitude of any configured milli-unit length.
pub const MILLI_BOUND: i64 = 1_000_000_000_000;

/// Upper bound on a grid coordinate handed to the projector.
pub const GRID_DIM_MAX: i64 = 1_000_000;

/// Upper bound on a bar height (in milli-units) handed to the projector.
pub const HEIGHT_MAX: i64 = 5_000_000_000_000_000;

/// Upper bound on the number of donut categories.
pub const CATEGORY_MAX: usize = 1_000_000;

/// Configuration constants for the whole scene, in milli-units
/// (except the per-mille shade factors and the legend row capacity).
pub struct RenderConfig {
    /// Canvas width.
    pub view_width: i64,
    /// Canvas height.
    pub view_height: i64,
    /// Horizontal center of the isometric projection.
    pub center_x: i64,
    /// Vertical center of the isometric projection.
    pub center_y: i64,
    /// Horizontal step per grid unit: cos(angle) * scale.
    pub step_x: i64,
    /// Vertical step per grid unit: sin(angle) * scale.
    pub step_y: i64,
    /// Bar height per activity count.
    pub height_scale: i64,
    /// Minimum bar height: zero-count cells still render a thin slab.
    pub min_height: i64,
    /// Per-mille darkening of the left face of a bar.
    pub left_shade: u32,
    /// Per-mille darkening of the right face of a bar.
    pub right_shade: u32,
    /// Translation of the heatmap layer.
    pub heat_dx: i64,
    pub heat_dy: i64,
    /// Translation of the donut layer.
    pub donut_dx: i64,
    pub donut_dy: i64,
    /// Outer radius of a donut slice.
    pub donut_outer: i64,
    /// Inner radius of a donut slice.
    pub donut_inner: i64,
    /// Horizontal start of the legend, relative to the donut center.
    pub legend_x: i64,
    /// Horizontal distance between legend columns.
    pub legend_col_step: i64,
    /// Vertical distance between legend rows.
    pub legend_row_step: i64,
    /// Vertical start of the legend, relative to the donut center.
    pub legend_y: i64,
    /// Number of legend rows per column.
    pub legend_rows: u64,
    /// Side length of a legend color swatch.
    pub swatch_size: i64,
    /// Offset of a legend label from its swatch.
    pub legend_label_dx: i64,
    pub legend_label_dy: i64,
    /// Translation of the radar layer.
    pub radar_dx: i64,
    pub radar_dy: i64,
    /// Radius of the outermost radar grid ring.
    pub radar_max_radius: i64,
    /// Radial distance of the radar axis labels.
    pub radar_label_radius: i64,
    /// Horizontal adjustment of the radar axis labels.
    pub radar_label_dx: i64,
    /// Distance of the footer baseline from the bottom of the canvas.
    pub footer_rise: i64,
}

impl RenderConfig {
    /// All configured lengths are small enough that every coordinate the
    /// renderers derive from them fits in an `i64`, and the shade factors
    /// do not brighten.
    pub open spec fn wf(self) -> bool {
        &&& 0 <= self.view_width <= MILLI_BOUND
        &&& 0 <= self.view_height <= MILLI_BOUND
        &&& -MILLI_BOUND <= self.center_x <= MILLI_BOUND
        &&& -MILLI_BOUND <= self.center_y <= MILLI_BOUND
        &&& 0 <= self.step_x <= MILLI_BOUND
        &&& 0 <= self.step_y <= MILLI_BOUND
        &&& 0 <= self.height_scale <= 1_000_000
        &&& 0 <= self.min_height <= MILLI_BOUND
        &&& self.left_shade <= 1000
        &&& self.right_shade <= 1000
        &&& -MILLI_BOUND <= self.heat_dx <= MILLI_BOUND
        &&& -MILLI_BOUND <= self.heat_dy <= MILLI_BOUND
        &&& -MILLI_BOUND <= self.donut_dx <= MILLI_BOUND
        &&& -MILLI_BOUND <= self.donut_dy <= MILLI_BOUND
        &&& 0 <= self.donut_outer <= MILLI_BOUND
        &&& 0 <= self.donut_inner <= MILLI_BOUND
        &&& -MILLI_BOUND <= self.legend_x <= MILLI_BOUND
        &&& 0 <= self.legend_col_step <= MILLI_BOUND
        &&& 0 <= self.legend_row_step <= MILLI_BOUND
        &&& -MILLI_BOUND <= self.legend_y <= MILLI_BOUND
        &&& 1 <= self.legend_rows <= 1000
        &&& 0 <= self.swatch_size <= MILLI_BOUND
        &&& -MILLI_BOUND <= self.legend_label_dx <= MILLI_BOUND
        &&& -MILLI_BOUND <= self.legend_label_dy <= MILLI_BOUND
        &&& -MILLI_BOUND <= self.radar_dx <= MILLI_BOUND
        &&& -MILLI_BOUND <= self.radar_dy <= MILLI_BOUND
        &&& 0 <= self.radar_max_radius <= MILLI_BOUND
        &&& 0 <= self.radar_label_radius <= MILLI_BOUND
        &&& -MILLI_BOUND <= self.radar_label_dx <= MILLI_BOUND
        &&& 0 <= self.footer_rise <= MILLI_BOUND
    }
}

/// The standard 1400x1000 canvas layout: a 30-degree axonometric angle with
/// scale 20 (so the horizontal step is 20*cos(30) ~ 17.321 units and the
/// vertical step exactly 10), the donut at (180, 820), the radar at
/// (1150, 250), and the footer 40 units above the bottom edge.
pub open spec fn spec_standard_config() -> RenderConfig {
    RenderConfig {
        view_width: 1_400_000,
        view_height: 1_000_000,
        center_x: 400_000,
        center_y: 300_000,
        step_x: 17_321,
        step_y: 10_000,
        height_scale: 5_000,
        min_height: 2_000,
        left_shade: 800,
        right_shade: 600,
        heat_dx: 0,
        heat_dy: 0,
        donut_dx: 180_000,
        donut_dy: 820_000,
        donut_outer: 90_000,
        donut_inner: 60_000,
        legend_x: 120_000,
        legend_col_step: 140_000,
        legend_row_step: 22_000,
        legend_y: -80_000i64,
        legend_rows: 8,
        swatch_size: 12_000,
        legend_label_dx: 18_000,
        legend_label_dy: 10_000,
        radar_dx: 1_150_000,
        radar_dy: 250_000,
        radar_max_radius: 110_000,
        radar_label_radius: 140_000,
        radar_label_dx: -25_000i64,
        footer_rise: 40_000,
    }
}

/// Returns the standard canvas configuration.
pub fn standard_config() -> (c: RenderConfig)
    ensures
        c == spec_standard_config(),
        c.wf(),
{
    RenderConfig {
        view_width: 1_400_000,
        view_height: 1_000_000,
        center_x: 400_000,
        center_y: 300_000,
        step_x: 17_321,
        step_y: 10_000,
        height_scale: 5_000,
        min_height: 2_000,
        left_shade: 800,
        right_shade: 600,
        heat_dx: 0,
        heat_dy: 0,
        donut_dx: 180_000,
        donut_dy: 820_000,
        donut_outer: 90_000,
        donut_inner: 60_000,
        legend_x: 120_000,
        legend_col_step: 140_000,
        legend_row_step: 22_000,
        legend_y: -80_000i64,
        legend_rows: 8,
        swatch_size: 12_000,
        legend_label_dx: 18_000,
        legend_label_dy: 10_000,
        radar_dx: 1_150_000,
        radar_dy: 250_000,
        radar_max_radius: 110_000,
        radar_label_radius: 140_000,
        radar_label_dx: -25_000i64,
        footer_rise: 40_000,
    }
}

} // verus!
