use cpu_chart::chart::{build, cpu_usage_chart, CANVAS_HEIGHT, CANVAS_WIDTH};
use cpu_chart::sample::Sample;

fn points() -> Vec<Sample> {
    vec![
        Sample { index: 3, value_bits: 7.5f32.to_bits() },
        Sample { index: 1, value_bits: 99.0f32.to_bits() },
        Sample { index: 2, value_bits: 0.0f32.to_bits() },
        Sample { index: 2, value_bits: 0.0f32.to_bits() },
    ]
}

#[test]
fn build_keeps_the_points_as_given() {
    let chart = build(points(), "t", "x", "y", "s");
    assert_eq!(chart.points, points());
}

#[test]
fn build_keeps_the_texts() {
    let chart = build(Vec::new(), "Title", "X axis", "Y axis", "Series");
    assert_eq!(chart.title, "Title");
    assert_eq!(chart.x_axis_label, "X axis");
    assert_eq!(chart.y_axis_label, "Y axis");
    assert_eq!(chart.series_name, "Series");
    assert!(chart.points.is_empty());
}

#[test]
fn cpu_usage_chart_has_the_fixed_texts() {
    let chart = cpu_usage_chart(points());
    assert_eq!(chart.title, "CPU USAGE");
    assert_eq!(chart.x_axis_label, "Time (s)");
    assert_eq!(chart.y_axis_label, "CPU Usage (%)");
    assert_eq!(chart.series_name, "CPU Usage");
    assert_eq!(chart.points, points());
}

#[test]
fn canvas_is_a_thousand_pixels_square() {
    assert_eq!(CANVAS_WIDTH, 1000);
    assert_eq!(CANVAS_HEIGHT, 1000);
}
