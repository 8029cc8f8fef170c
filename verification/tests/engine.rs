use isocharts::color::darken;
use isocharts::compose::{footer_text, Summary};
use isocharts::config::standard_config;
use isocharts::heatmap::get_seasonal_color;
use isocharts::iso::project;
use isocharts::numfmt::u64_to_string;
use isocharts::radar::radar_radius;

#[test]
fn project_center_and_steps() {
    let cfg = standard_config();
    let origin = project(&cfg, 0, 0, 0);
    assert_eq!((origin.x, origin.y), (400_000, 300_000));
    let col = project(&cfg, 1, 0, 0);
    assert_eq!((col.x, col.y), (417_321, 310_000));
    let row = project(&cfg, 0, 1, 0);
    assert_eq!((row.x, row.y), (382_679, 310_000));
    let lifted = project(&cfg, 2, 3, 4_500);
    assert_eq!(lifted.x, 400_000 - 17_321);
    assert_eq!(lifted.y, 300_000 + 50_000 - 4_500);
}

#[test]
fn project_is_deterministic() {
    let cfg = standard_config();
    let a = project(&cfg, 7, 3, 12_000);
    let b = project(&cfg, 7, 3, 12_000);
    assert_eq!(a, b);
}

#[test]
fn darken_known_values() {
    // 0x40 * 0.8 = 51 = 0x33, 0xc4 * 0.8 = 156 = 0x9c, 0x63 * 0.8 = 79 = 0x4f
    assert_eq!(darken("#40c463", 800), "#339c4f");
    // factor 1000 keeps every channel
    assert_eq!(darken("#40c463", 1000), "#40c463");
    // the prefix is optional
    assert_eq!(darken("40c463", 800), "#339c4f");
    // uppercase digits parse; output is lowercase
    assert_eq!(darken("#FFFFFF", 500), "#7f7f7f");
    assert_eq!(darken("#000000", 500), "#000000");
}

#[test]
fn darken_bounds_hold_on_samples() {
    let inputs = ["#40c463", "#ffffff", "#00add8", "#dea584"];
    let factors = [1u32, 250, 600, 800, 1000];
    for hex in inputs {
        let parse = |s: &str| {
            let t = s.strip_prefix('#').unwrap_or(s);
            (
                u32::from_str_radix(&t[0..2], 16).unwrap(),
                u32::from_str_radix(&t[2..4], 16).unwrap(),
                u32::from_str_radix(&t[4..6], 16).unwrap(),
            )
        };
        let (r0, g0, b0) = parse(hex);
        for f in factors {
            let out = darken(hex, f);
            assert_eq!(out.len(), 7);
            assert!(out.starts_with('#'));
            let (r1, g1, b1) = parse(&out);
            assert!(r1 <= r0 && g1 <= g0 && b1 <= b0);
        }
    }
}

#[test]
fn darken_fallback_on_malformed_input() {
    assert_eq!(darken("not-a-color", 500), "#c8c8c8");
    assert_eq!(darken("", 500), "#c8c8c8");
    assert_eq!(darken("#12345", 500), "#c8c8c8");
    assert_eq!(darken("#12345g", 500), "#c8c8c8");
    assert_eq!(darken("##ff0000", 500), "#c8c8c8");
}

#[test]
fn seasonal_color_buckets() {
    assert_eq!(get_seasonal_color(0, 0), "#ebedf0");
    assert_eq!(get_seasonal_color(40, 0), "#ebedf0");
    assert_eq!(get_seasonal_color(0, 1), "#c6e48b");
    assert_eq!(get_seasonal_color(12, 9), "#c6e48b");
    assert_eq!(get_seasonal_color(13, 1), "#f4e04d");
    assert_eq!(get_seasonal_color(25, 1), "#f4e04d");
    assert_eq!(get_seasonal_color(26, 1), "#a3a3a3");
    assert_eq!(get_seasonal_color(38, 1), "#a3a3a3");
    assert_eq!(get_seasonal_color(39, 1), "#d1a3d1");
}

#[test]
fn radar_radius_saturates() {
    // log10(10000) / 4 == 1: the scale clamps at the full radius
    assert_eq!(radar_radius(9999, 110_000), 110_000);
    assert_eq!(radar_radius(4_000_000_000, 110_000), 110_000);
    // log10(1) == 0: a zero metric sits at the center
    assert_eq!(radar_radius(0, 110_000), 0);
    // log10(100) / 4 == 1/2: exactly half the radius
    assert_eq!(radar_radius(99, 110_000), 55_000);
    // log10(10) / 4 == 1/4
    assert_eq!(radar_radius(9, 110_000), 27_500);
}

#[test]
fn radar_radius_close_to_float_log() {
    let max_r = 110_000i64;
    for v in [0u32, 1, 3, 9, 42, 120, 999, 5000, 9998, 9999] {
        let exact = ((f64::from(v) + 1.0).log10() / 4.0).min(1.0) * (max_r as f64);
        let got = radar_radius(v, max_r) as f64;
        // the chord of log10 across a decade sags by at most ~0.27, so the
        // piecewise-linear scale stays within 7% of the analytic radius
        assert!(
            (got - exact).abs() <= 0.07 * max_r as f64,
            "v={v}: got {got}, exact {exact}"
        );
    }
}

#[test]
fn u64_formatting() {
    assert_eq!(u64_to_string(0), "0");
    assert_eq!(u64_to_string(7), "7");
    assert_eq!(u64_to_string(10), "10");
    assert_eq!(u64_to_string(909), "909");
    assert_eq!(u64_to_string(18446744073709551615), "18446744073709551615");
}

#[test]
fn footer_text_contains_counters() {
    let s = Summary { total_contributions: 123, total_stars: 45, total_forks: 6 };
    assert_eq!(footer_text(&s), "123 contributions | 45 stars | 6 forks");
}
