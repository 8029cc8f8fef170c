//! The scene composer.
//!
//! Invokes the three renderers, places each layer at its fixed configured
//! translation offset, and appends a footer layer with one text node
//! summarizing total contributions, stars, and forks, centered horizontally
//! near the canvas bottom. The composer performs no layout solving: the
//! offsets and canvas dimensions come straight from the configuration.

use vstd::prelude::*;
use vstd::string::StringExecFns;

use crate::config::{RenderConfig, CATEGORY_MAX};
use crate::donut::{cats_view, donut_shapes, render_donut, total_magnitude, Category, CategoryV};
use crate::heatmap::{grid_in_range, grid_shapes, grid_view, render_heatmap, CellV, Week};
use crate::numfmt::{dec_digits, u64_to_string};
use crate::radar::{radar_shapes, render_radar};
use crate::scene::{
    layers_view, lemma_layers_view_push, Layer, LayerV, Position, Scene, SceneV, Shape, ShapeV,
};

verus! {

/// The aggregate counters shown in the footer.
#[derive(Clone, Copy, Debug, PartialEq, Eq, Structural)]
pub struct Summary {
    pub total_contributions: u64,
    pub total_stars: u64,
    pub total_forks: u64,
}

/// The footer line: the three counters with their unit words.
pub open spec fn spec_footer_text(s: Summary) -> Seq<char> {
    dec_digits(s.total_contributions as int) + " contributions | "@ + dec_digits(
        s.total_stars as int,
    ) + " stars | "@ + dec_digits(s.total_forks as int) + " forks"@
}

/// Formats the footer line for a summary.
pub fn footer_text(s: &Summary) -> (t: String)
    ensures
        t@ == spec_footer_text(*s),
{
    let mut t = u64_to_string(s.total_contributions);
    t.append(" contributions | ");
    let stars = u64_to_string(s.total_stars);
    t.append(stars.as_str());
    t.append(" stars | ");
    let forks = u64_to_string(s.total_forks);
    t.append(forks.as_str());
    t.append(" forks");
    proof {
        assert(t@ =~= spec_footer_text(*s));
    }
    t
}

/// The single bold, centered footer text node.
pub open spec fn footer_shape(cfg: RenderConfig, s: Summary) -> ShapeV {
    ShapeV::Text {
        pos: Position::Xy {
            x: (cfg.view_width / 2) as i64,
            y: (cfg.view_height - cfg.footer_rise) as i64,
        },
        content: spec_footer_text(s),
        fill: "#586069"@,
        font_size: 24,
        anchor_middle: true,
        bold: true,
    }
}

/// Renders the footer layer: one summary text node.
pub fn render_footer(summary: &Summary, cfg: &RenderConfig) -> (layer: Layer)
    requires
        cfg.wf(),
    ensures
        layer@.name == "footer"@,
        layer@.dx == 0,
        layer@.dy == 0,
        layer@.shapes == seq![footer_shape(*cfg, *summary)],
{
    let text = Shape::Text {
        pos: Position::Xy { x: cfg.view_width / 2, y: cfg.view_height - cfg.footer_rise },
        content: footer_text(summary),
        fill: String::from_str("#586069"),
        font_size: 24,
        anchor_middle: true,
        bold: true,
    };
    proof {
        vstd::arithmetic::div_mod::lemma_div_pos_is_pos(cfg.view_width as int, 2);
    }
    let mut shapes: Vec<Shape> = Vec::new();
    shapes.push(text);
    proof {
        assert(shapes@ =~= Seq::<Shape>::empty().push(text));
        crate::scene::lemma_shapes_view_push(Seq::<Shape>::empty(), text);
        assert(crate::scene::shapes_view(Seq::<Shape>::empty()) =~= Seq::<ShapeV>::empty());
        assert(crate::scene::shapes_view(shapes@) =~= seq![footer_shape(*cfg, *summary)]);
    }
    Layer { name: String::from_str("footer"), dx: 0, dy: 0, shapes }
}

/// The heatmap layer of the composed scene.
pub open spec fn heatmap_layer(cfg: RenderConfig, grid: Seq<Seq<CellV>>) -> LayerV {
    LayerV { name: "heatmap"@, dx: cfg.heat_dx, dy: cfg.heat_dy, shapes: grid_shapes(cfg, grid) }
}

/// The donut layer of the composed scene.
pub open spec fn donut_layer(cfg: RenderConfig, cats: Seq<CategoryV>) -> LayerV {
    LayerV { name: "donut"@, dx: cfg.donut_dx, dy: cfg.donut_dy, shapes: donut_shapes(cfg, cats) }
}

/// The radar layer of the composed scene.
pub open spec fn radar_layer(cfg: RenderConfig, vals: Seq<u32>) -> LayerV {
    LayerV { name: "radar"@, dx: cfg.radar_dx, dy: cfg.radar_dy, shapes: radar_shapes(cfg, vals) }
}

/// The footer layer of the composed scene.
pub open spec fn footer_layer(cfg: RenderConfig, s: Summary) -> LayerV {
    LayerV { name: "footer"@, dx: 0, dy: 0, shapes: seq![footer_shape(cfg, s)] }
}

/// The whole composed scene, layer by layer in drawing order.
pub open spec fn spec_scene(
    cfg: RenderConfig,
    grid: Seq<Seq<CellV>>,
    cats: Seq<CategoryV>,
    vals: Seq<u32>,
    s: Summary,
) -> SceneV {
    SceneV {
        width: cfg.view_width,
        height: cfg.view_height,
        layers: seq![
            heatmap_layer(cfg, grid),
            donut_layer(cfg, cats),
            radar_layer(cfg, vals),
            footer_layer(cfg, s),
        ],
    }
}

/// Composes the three charts and the footer into one scene.
///
/// Donut slices are laid out in the order the categories are given; sort
/// with [`crate::donut::sort_categories_desc`] first for the conventional
/// largest-first layout.
pub fn compose_scene(
    weeks: &Vec<Week>,
    cats: &Vec<Category>,
    metrics: &[u32; 5],
    summary: &Summary,
    cfg: &RenderConfig,
) -> (scene: Scene)
    requires
        cfg.wf(),
        grid_in_range(grid_view(weeks@)),
        cats@.len() < CATEGORY_MAX,
        total_magnitude(cats_view(cats@)) <= u64::MAX,
    ensures
        scene@ == spec_scene(*cfg, grid_view(weeks@), cats_view(cats@), metrics@, *summary),
{
    let heat = render_heatmap(weeks, cfg);
    let donut = render_donut(cats, cfg);
    let radar = render_radar(metrics, cfg);
    let footer = render_footer(summary, cfg);
    proof {
        assert(heat@ == heatmap_layer(*cfg, grid_view(weeks@)));
        assert(donut@ == donut_layer(*cfg, cats_view(cats@)));
        assert(radar@ == radar_layer(*cfg, metrics@));
        assert(footer@ == footer_layer(*cfg, *summary));
    }
    let mut layers: Vec<Layer> = Vec::new();
    let ghost e = Seq::<Layer>::empty();
    layers.push(heat);
    layers.push(donut);
    layers.push(radar);
    layers.push(footer);
    proof {
        lemma_layers_view_push(e, heat);
        lemma_layers_view_push(e.push(heat), donut);
        lemma_layers_view_push(e.push(heat).push(donut), radar);
        lemma_layers_view_push(e.push(heat).push(donut).push(radar), footer);
        assert(layers@ =~= e.push(heat).push(donut).push(radar).push(footer));
        assert(layers_view(e) =~= Seq::<LayerV>::empty());
        assert(layers_view(layers@) =~= spec_scene(
            *cfg,
            grid_view(weeks@),
            cats_view(cats@),
            metrics@,
            *summary,
        ).layers);
    }
    Scene { width: cfg.view_width, height: cfg.view_height, layers }
}

} // verus!
