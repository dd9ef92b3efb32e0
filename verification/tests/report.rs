use cpu_chart::pipeline::Failure;
use cpu_chart::report::{
    diagnostic, headline, saved_line, BITMAP_PATH, GREETING, VECTOR_PATH, VECTOR_READ_PATH,
};

#[test]
fn render_failure_is_reported_with_its_prefix() {
    let line = diagnostic(Failure::Render, "Image rendering error: permission denied");
    assert_eq!(line, "Error saving chart: Image rendering error: permission denied");
    assert!(line.starts_with("Error saving chart:"));
    assert!(diagnostic(Failure::Render, "").starts_with("Error saving chart:"));
}

#[test]
fn fatal_failures_have_their_diagnostics() {
    assert_eq!(diagnostic(Failure::ReadBack, "NotFound"), "Failed to read SVG file: NotFound");
    assert_eq!(diagnostic(Failure::Persist, "IoError"), "Failed to save PNG: IoError");
    assert_eq!(
        diagnostic(Failure::Spawn, "NotFound"),
        "called `Result::unwrap()` on an `Err` value: NotFound"
    );
}

#[test]
fn headline_of_each_failure() {
    assert_eq!(headline(Failure::Render), "Error saving chart");
    assert_eq!(headline(Failure::ReadBack), "Failed to read SVG file");
    assert_eq!(headline(Failure::Persist), "Failed to save PNG");
    assert_eq!(headline(Failure::Spawn), "called `Result::unwrap()` on an `Err` value");
}

#[test]
fn saved_line_names_the_path() {
    assert_eq!(saved_line("cpu_usage.svg"), "Chart saved successfully as cpu_usage.svg");
    assert_eq!(saved_line(VECTOR_PATH), "Chart saved successfully as cpu_usage.svg");
}

#[test]
fn fixed_names() {
    assert_eq!(VECTOR_PATH, "cpu_usage.svg");
    assert_eq!(VECTOR_READ_PATH, "./cpu_usage.svg");
    assert_eq!(BITMAP_PATH, "cpu_usage.png");
    assert_eq!(GREETING, "Hello, world!");
}
