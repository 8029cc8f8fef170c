use std::f64::consts::PI;

use isocharts::compose::{compose_scene, Summary};
use isocharts::config::standard_config;
use isocharts::donut::{render_donut, sort_categories_desc, Category};
use isocharts::heatmap::{render_heatmap, Cell, Week};
use isocharts::radar::render_radar;
use isocharts::scene::Shape;
use isocharts::summary::{aggregate_repos, LangEntry, RepoRecord};

fn cell(count: u32) -> Cell {
    Cell { count, color: None }
}

fn colored_cell(count: u32, color: &str) -> Cell {
    Cell { count, color: Some(color.to_string()) }
}

fn cat(name: &str, magnitude: u64, color: &str) -> Category {
    Category { name: name.to_string(), magnitude, color: color.to_string() }
}

#[test]
fn heatmap_three_faces_per_cell() {
    let cfg = standard_config();
    // an irregular grid: two days, then one
    let weeks = vec![
        Week { days: vec![cell(0), cell(5)] },
        Week { days: vec![cell(3)] },
    ];
    let layer = render_heatmap(&weeks, &cfg);
    assert_eq!(layer.name, "heatmap");
    assert_eq!((layer.dx, layer.dy), (0, 0));
    // three faces per cell, zero-count cells included (minimum-height slab)
    assert_eq!(layer.shapes.len(), 9);
    for shape in &layer.shapes {
        match shape {
            Shape::Polygon { points, stroke, .. } => {
                assert_eq!(points.len(), 4);
                assert!(stroke.is_none());
            }
            other => panic!("unexpected heatmap shape: {other:?}"),
        }
    }
    // the zero-count first cell resolves to the neutral color and its left
    // face is darkened by 0.8: eb -> bc, ed -> bd, f0 -> c0
    match &layer.shapes[0] {
        Shape::Polygon { fill, .. } => assert_eq!(fill, "#bcbdc0"),
        other => panic!("unexpected shape: {other:?}"),
    }
    // the second cell is uncolored with a nonzero count in week 0: its top
    // face takes the first seasonal bucket color
    match &layer.shapes[5] {
        Shape::Polygon { fill, .. } => assert_eq!(fill, "#c6e48b"),
        other => panic!("unexpected shape: {other:?}"),
    }
}

#[test]
fn heatmap_empty_grid() {
    let cfg = standard_config();
    let weeks: Vec<Week> = Vec::new();
    let layer = render_heatmap(&weeks, &cfg);
    assert!(layer.shapes.is_empty());
}

#[test]
fn heatmap_colored_cells_keep_their_color() {
    let cfg = standard_config();
    let weeks = vec![Week { days: vec![colored_cell(5, "#40c463")] }];
    let layer = render_heatmap(&weeks, &cfg);
    assert_eq!(layer.shapes.len(), 3);
    let fills: Vec<&str> = layer
        .shapes
        .iter()
        .map(|s| match s {
            Shape::Polygon { fill, .. } => fill.as_str(),
            other => panic!("unexpected shape: {other:?}"),
        })
        .collect();
    // left darkened by 0.8, right by 0.6, top undarkened
    assert_eq!(fills, vec!["#339c4f", "#26753b", "#40c463"]);
}

#[test]
fn donut_slices_close_the_circle() {
    let cfg = standard_config();
    let cats = vec![cat("Go", 80, "#00add8"), cat("Rust", 20, "#dea584")];
    let layer = render_donut(&cats, &cfg);
    assert_eq!(layer.name, "donut");
    assert_eq!((layer.dx, layer.dy), (180_000, 820_000));
    // slice + swatch + label per category
    assert_eq!(layer.shapes.len(), 6);
    let arcs: Vec<_> = layer
        .shapes
        .iter()
        .filter_map(|s| match s {
            Shape::Path { arc, fill } => Some((*arc, fill.clone())),
            _ => None,
        })
        .collect();
    assert_eq!(arcs.len(), 2);
    let (first, second) = (&arcs[0], &arcs[1]);
    assert_eq!((first.0.start_num, first.0.sweep_num, first.0.denom), (0, 80, 100));
    assert_eq!((second.0.start_num, second.0.sweep_num, second.0.denom), (80, 20, 100));
    assert_eq!(first.1, "#00add8");
    assert_eq!(second.1, "#dea584");
    // a sweep above half a turn is marked as the large arc
    assert!(first.0.large_arc);
    assert!(!second.0.large_arc);
    assert_eq!((first.0.outer_radius, first.0.inner_radius), (90_000, 60_000));
    // the slice angles sum to exactly one full turn
    let total_angle: f64 = arcs
        .iter()
        .map(|(a, _)| 2.0 * PI * (a.sweep_num as f64) / (a.denom as f64))
        .sum();
    assert!((total_angle - 2.0 * PI).abs() < 1e-9);
}

#[test]
fn donut_legend_tiling() {
    let cfg = standard_config();
    let cats: Vec<Category> = (0..9)
        .map(|i| cat(&format!("lang{i}"), 10, "#00add8"))
        .collect();
    let layer = render_donut(&cats, &cfg);
    assert_eq!(layer.shapes.len(), 27);
    // entry 0: column 0, row 0
    match &layer.shapes[1] {
        Shape::Polygon { points, .. } => {
            assert_eq!((points[0].x, points[0].y), (120_000, -80_000));
            assert_eq!((points[2].x, points[2].y), (132_000, -68_000));
        }
        other => panic!("unexpected shape: {other:?}"),
    }
    // entry 8 wraps to column 1, row 0 (eight rows per column)
    match &layer.shapes[25] {
        Shape::Polygon { points, .. } => {
            assert_eq!((points[0].x, points[0].y), (260_000, -80_000));
        }
        other => panic!("unexpected shape: {other:?}"),
    }
    // entry 1: column 0, row 1, label beside the swatch
    match &layer.shapes[5] {
        Shape::Text { pos, content, .. } => {
            assert_eq!(content, "lang1");
            match pos {
                isocharts::scene::Position::Xy { x, y } => {
                    assert_eq!((*x, *y), (138_000, -48_000));
                }
                other => panic!("unexpected position: {other:?}"),
            }
        }
        other => panic!("unexpected shape: {other:?}"),
    }
}

#[test]
fn donut_zero_total_renders_nothing() {
    let cfg = standard_config();
    let empty: Vec<Category> = Vec::new();
    assert!(render_donut(&empty, &cfg).shapes.is_empty());
    let zeros = vec![cat("Go", 0, "#00add8"), cat("Rust", 0, "#dea584")];
    assert!(render_donut(&zeros, &cfg).shapes.is_empty());
}

#[test]
fn sort_categories_is_a_descending_permutation() {
    let cats = vec![
        cat("a", 5, "#111111"),
        cat("b", 90, "#222222"),
        cat("c", 20, "#333333"),
        cat("d", 90, "#444444"),
    ];
    let sorted = sort_categories_desc(cats);
    let mags: Vec<u64> = sorted.iter().map(|c| c.magnitude).collect();
    assert_eq!(mags, vec![90, 90, 20, 5]);
    let mut names: Vec<String> = sorted.iter().map(|c| c.name.clone()).collect();
    names.sort();
    assert_eq!(names, vec!["a", "b", "c", "d"]);
}

#[test]
fn radar_layer_structure() {
    let cfg = standard_config();
    let layer = render_radar(&[10, 0, 2, 1, 0], &cfg);
    assert_eq!(layer.name, "radar");
    assert_eq!((layer.dx, layer.dy), (1_150_000, 250_000));
    // four reference rings, five axis labels, one data polygon
    assert_eq!(layer.shapes.len(), 10);
    let ring_radii: Vec<i64> = layer.shapes[..4]
        .iter()
        .map(|s| match s {
            Shape::PolarPolygon { points, fill, stroke } => {
                assert_eq!(points.len(), 5);
                assert_eq!(fill, "none");
                assert_eq!(stroke.as_ref().unwrap().color, "#e1e4e8");
                points[0].radius
            }
            other => panic!("unexpected shape: {other:?}"),
        })
        .collect();
    assert_eq!(ring_radii, vec![27_500, 55_000, 82_500, 110_000]);
    let labels: Vec<&str> = layer.shapes[4..9]
        .iter()
        .map(|s| match s {
            Shape::Text { content, .. } => content.as_str(),
            other => panic!("unexpected shape: {other:?}"),
        })
        .collect();
    assert_eq!(labels, vec!["Commit", "Issue", "PullReq", "Review", "Repo"]);
    match &layer.shapes[9] {
        Shape::PolarPolygon { points, fill, stroke } => {
            assert_eq!(points.len(), 5);
            assert_eq!(fill, "rgba(46, 160, 67, 0.2)");
            let st = stroke.as_ref().unwrap();
            assert_eq!((st.color.as_str(), st.width), ("#2ea043", 2));
            // axes in order; zero metrics sit at the center
            for (i, p) in points.iter().enumerate() {
                assert_eq!(p.axis as usize, i);
            }
            assert_eq!(points[1].radius, 0);
            assert_eq!(points[4].radius, 0);
            assert!(points[0].radius > points[2].radius);
        }
        other => panic!("unexpected shape: {other:?}"),
    }
}

#[test]
fn aggregate_merges_languages() {
    let repos = vec![
        RepoRecord {
            stars: 2,
            forks: 1,
            langs: vec![
                LangEntry {
                    name: "Rust".to_string(),
                    size: 100,
                    color: Some("#dea584".to_string()),
                },
                LangEntry { name: "Go".to_string(), size: 50, color: Some("#00add8".to_string()) },
            ],
        },
        RepoRecord {
            stars: 3,
            forks: 0,
            langs: vec![LangEntry { name: "Rust".to_string(), size: 50, color: None }],
        },
    ];
    let (stars, forks, cats) = aggregate_repos(&repos);
    assert_eq!((stars, forks), (5, 1));
    assert_eq!(cats.len(), 2);
    assert_eq!((cats[0].name.as_str(), cats[0].magnitude, cats[0].color.as_str()),
        ("Rust", 150, "#dea584"));
    assert_eq!((cats[1].name.as_str(), cats[1].magnitude, cats[1].color.as_str()),
        ("Go", 50, "#00add8"));
}

#[test]
fn aggregate_uses_neutral_color_for_unknown() {
    let repos = vec![RepoRecord {
        stars: 0,
        forks: 0,
        langs: vec![LangEntry { name: "Ada".to_string(), size: 7, color: None }],
    }];
    let (_, _, cats) = aggregate_repos(&repos);
    assert_eq!(cats[0].color, "#cccccc");
}

#[test]
fn composed_scene_end_to_end() {
    let cfg = standard_config();
    let weeks = vec![
        Week { days: vec![cell(0), colored_cell(5, "#40c463")] },
        Week { days: vec![colored_cell(3, "#9be9a8")] },
    ];
    let cats = vec![cat("Go", 80, "#00add8"), cat("Rust", 20, "#dea584")];
    let metrics = [10, 0, 2, 1, 0];
    let summary = Summary { total_contributions: 5, total_stars: 7, total_forks: 2 };
    let scene = compose_scene(&weeks, &cats, &metrics, &summary, &cfg);
    assert_eq!((scene.width, scene.height), (1_400_000, 1_000_000));
    assert_eq!(scene.layers.len(), 4);
    let names: Vec<&str> = scene.layers.iter().map(|l| l.name.as_str()).collect();
    assert_eq!(names, vec!["heatmap", "donut", "radar", "footer"]);
    // all three cells render, three faces each
    assert_eq!(scene.layers[0].shapes.len(), 9);
    // exactly two donut slices, closing the circle
    let arcs: Vec<_> = scene.layers[1]
        .shapes
        .iter()
        .filter_map(|s| match s {
            Shape::Path { arc, .. } => Some(*arc),
            _ => None,
        })
        .collect();
    assert_eq!(arcs.len(), 2);
    let total_angle: f64 = arcs
        .iter()
        .map(|a| 2.0 * PI * (a.sweep_num as f64) / (a.denom as f64))
        .sum();
    assert!((total_angle - 2.0 * PI).abs() < 1e-9);
    // five radar data vertices
    match scene.layers[2].shapes.last().unwrap() {
        Shape::PolarPolygon { points, .. } => assert_eq!(points.len(), 5),
        other => panic!("unexpected shape: {other:?}"),
    }
    // one footer text node with the literal summary values
    assert_eq!(scene.layers[3].shapes.len(), 1);
    match &scene.layers[3].shapes[0] {
        Shape::Text { content, anchor_middle, bold, .. } => {
            assert_eq!(content, "5 contributions | 7 stars | 2 forks");
            assert!(*anchor_middle && *bold);
        }
        other => panic!("unexpected shape: {other:?}"),
    }
}
