//! A deterministic chart-geometry engine for activity statistics.
//!
//! The engine turns numeric activity data (a daily contribution calendar, a
//! per-category size breakdown, and a five-metric vector) into a scene of 2D
//! shapes: an isometric bar-height heatmap, an annular (donut) proportion
//! chart with a tiled legend, and a pentagonal radar chart. All geometry is
//! computed exactly, in fixed-point milli-units (1/1000 of a canvas unit), so
//! the scene is a pure, reproducible function of its inputs. Serializing the
//! scene to a concrete vector-image format is a caller's concern.

pub mod color;
pub mod compose;
pub mod config;
pub mod donut;
pub mod heatmap;
pub mod iso;
pub mod numfmt;
pub mod radar;
pub mod scene;
pub mod summary;
