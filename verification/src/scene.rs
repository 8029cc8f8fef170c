//! The scene model: shapes, layers, and the composed scene.
//!
//! Coordinates are exact milli-units. Angular quantities are exact rational
//! fractions of a full turn (`num / denom`), and radial directions on the
//! radar chart are given by an axis index `i`, standing for the fixed angle
//! `i * 72 - 90` degrees. A serializer turns these exact descriptions into a
//! concrete vector-image format.

use vstd::prelude::*;

verus! {

/// A 2D scene point, in milli-units.
#[derive(Clone, Copy, Debug, PartialEq, Eq, Structural)]
pub struct PointMilli {
    pub x: i64,
    pub y: i64,
}

/// Where a piece of text or a polygon vertex sits.
#[derive(Clone, Copy, Debug, PartialEq, Eq, Structural)]
pub enum Position {
    /// An absolute layer-relative position.
    Xy { x: i64, y: i64 },
    /// A polar position: along radar axis `axis` (angle `axis * 72 - 90`
    /// degrees) at distance `radius`, then shifted by `(dx, dy)`.
    Polar { axis: u8, radius: i64, dx: i64, dy: i64 },
}

/// A radar polygon vertex: along axis `axis` at distance `radius`.
#[derive(Clone, Copy, Debug, PartialEq, Eq, Structural)]
pub struct PolarPoint {
    pub axis: u8,
    pub radius: i64,
}

/// One annular slice of the donut chart. The slice sweeps from angle
/// `start_num / denom` to `(start_num + sweep_num) / denom` of a full turn,
/// between the two radii. `large_arc` records whether the sweep exceeds a
/// half turn, which an arc-based serializer needs.
#[derive(Clone, Copy, Debug, PartialEq, Eq, Structural)]
pub struct AnnulusArc {
    pub start_num: u64,
    pub sweep_num: u64,
    pub denom: u64,
    pub outer_radius: i64,
    pub inner_radius: i64,
    pub large_arc: bool,
}

/// An outline drawn around a polygon.
#[derive(Clone, Debug)]
pub struct Stroke {
    pub color: String,
    pub width: u32,
}

/// Spec-level value of a `Stroke`.
pub struct StrokeV {
    pub color: Seq<char>,
    pub width: u32,
}

impl View for Stroke {
    type V = StrokeV;

    open spec fn view(&self) -> StrokeV {
        StrokeV { color: self.color@, width: self.width }
    }
}

/// One shape of the scene.
#[derive(Clone, Debug)]
#[allow(inconsistent_fields)]
pub enum Shape {
    /// A filled polygon with cartesian vertices.
    Polygon { points: Vec<PointMilli>, fill: String, stroke: Option<Stroke> },
    /// A filled polygon with polar vertices (radar chart).
    PolarPolygon { points: Vec<PolarPoint>, fill: String, stroke: Option<Stroke> },
    /// A filled annular-slice path (donut chart).
    Path { arc: AnnulusArc, fill: String },
    /// A piece of text.
    Text {
        pos: Position,
        content: String,
        fill: String,
        font_size: u32,
        anchor_middle: bool,
        bold: bool,
    },
}

/// Spec-level value of a `Shape`.
#[allow(inconsistent_fields)]
pub enum ShapeV {
    Polygon { points: Seq<PointMilli>, fill: Seq<char>, stroke: Option<StrokeV> },
    PolarPolygon { points: Seq<PolarPoint>, fill: Seq<char>, stroke: Option<StrokeV> },
    Path { arc: AnnulusArc, fill: Seq<char> },
    Text {
        pos: Position,
        content: Seq<char>,
        fill: Seq<char>,
        font_size: u32,
        anchor_middle: bool,
        bold: bool,
    },
}

impl View for Shape {
    type V = ShapeV;

    open spec fn view(&self) -> ShapeV {
        match self {
            Shape::Polygon { points, fill, stroke } => ShapeV::Polygon {
                points: points@,
                fill: fill@,
                stroke: match stroke {
                    Some(s) => Some(s@),
                    None => None,
                },
            },
            Shape::PolarPolygon { points, fill, stroke } => ShapeV::PolarPolygon {
                points: points@,
                fill: fill@,
                stroke: match stroke {
                    Some(s) => Some(s@),
                    None => None,
                },
            },
            Shape::Path { arc, fill } => ShapeV::Path { arc: *arc, fill: fill@ },
            Shape::Text { pos, content, fill, font_size, anchor_middle, bold } => ShapeV::Text {
                pos: *pos,
                content: content@,
                fill: fill@,
                font_size: *font_size,
                anchor_middle: *anchor_middle,
                bold: *bold,
            },
        }
    }
}

/// The spec-level values of a sequence of shapes.
pub open spec fn shapes_view(s: Seq<Shape>) -> Seq<ShapeV> {
    s.map_values(|sh: Shape| sh@)
}

pub proof fn lemma_shapes_view_push(s: Seq<Shape>, x: Shape)
    ensures
        shapes_view(s.push(x)) == shapes_view(s).push(x@),
{
    assert(shapes_view(s.push(x)) =~= shapes_view(s).push(x@));
}

/// A named group of shapes drawn under one translation offset.
#[derive(Clone, Debug)]
pub struct Layer {
    pub name: String,
    pub dx: i64,
    pub dy: i64,
    pub shapes: Vec<Shape>,
}

/// Spec-level value of a `Layer`.
pub struct LayerV {
    pub name: Seq<char>,
    pub dx: i64,
    pub dy: i64,
    pub shapes: Seq<ShapeV>,
}

impl View for Layer {
    type V = LayerV;

    open spec fn view(&self) -> LayerV {
        LayerV { name: self.name@, dx: self.dx, dy: self.dy, shapes: shapes_view(self.shapes@) }
    }
}

/// The spec-level values of a sequence of layers.
pub open spec fn layers_view(s: Seq<Layer>) -> Seq<LayerV> {
    s.map_values(|l: Layer| l@)
}

pub proof fn lemma_layers_view_push(s: Seq<Layer>, x: Layer)
    ensures
        layers_view(s.push(x)) == layers_view(s).push(x@),
{
    assert(layers_view(s.push(x)) =~= layers_view(s).push(x@));
}

/// The composed scene: a canvas and its layers, in drawing order.
#[derive(Clone, Debug)]
pub struct Scene {
    pub width: i64,
    pub height: i64,
    pub layers: Vec<Layer>,
}

/// Spec-level value of a `Scene`.
pub struct SceneV {
    pub width: i64,
    pub height: i64,
    pub layers: Seq<LayerV>,
}

impl View for Scene {
    type V = SceneV;

    open spec fn view(&self) -> SceneV {
        SceneV { width: self.width, height: self.height, layers: layers_view(self.layers@) }
    }
}

} // verus!
