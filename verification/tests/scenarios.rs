use cpu_chart::chart::{cpu_usage_chart, CANVAS_HEIGHT, CANVAS_WIDTH};
use cpu_chart::pipeline::{advance, Failure, Outcome, Stage, Step, Task};
use cpu_chart::raster::{encode, rasterize};
use cpu_chart::report::{diagnostic, saved_line, BITMAP_PATH, VECTOR_PATH};
use cpu_chart::sampler::{Sampler, SamplerStep};
use cpu_chart::viewer::{open_command, Opener};

/// A vector document that stands for the rendered chart: one line through
/// the given points on a canvas of the given size.
fn line_document(width: u32, height: u32, points: &[(f32, f32)]) -> String {
    let mut path = String::new();
    for (x, y) in points {
        path.push_str(&format!("{},{} ", x * 10.0, height as f32 - y));
    }
    format!(
        "<svg xmlns=\"http://www.w3.org/2000/svg\" width=\"{}\" height=\"{}\">\
         <polyline points=\"{}\" fill=\"none\" stroke=\"black\" stroke-width=\"2\"/></svg>",
        width, height, path
    )
}

#[test]
fn constant_load_gives_fifteen_equal_points_and_a_bitmap() {
    let mut sampler = Sampler::standard();
    let mut waited: u64 = 0;
    loop {
        match sampler.next_step() {
            SamplerStep::Measure { wait_ms, .. } => {
                waited += wait_ms;
                sampler.record(42.0f32.to_bits());
            }
            SamplerStep::Finished => break,
        }
    }
    assert_eq!(waited, 15 * 500);
    let chart = cpu_usage_chart(sampler.into_samples());
    assert_eq!(chart.points.len(), 15);
    let mut points = Vec::new();
    for (i, point) in chart.points.iter().enumerate() {
        assert_eq!(point.index, i as u32 + 1);
        assert_eq!(f32::from_bits(point.value_bits), 42.0);
        points.push((point.index as f32, f32::from_bits(point.value_bits)));
    }

    let document = line_document(CANVAS_WIDTH, CANVAS_HEIGHT, &points);
    let bitmap = rasterize(&document).unwrap();
    assert_eq!((bitmap.width(), bitmap.height()), (1000, 1000));
    assert!(bitmap.data().iter().any(|byte| *byte != 255));
    let png = encode(&bitmap).unwrap();
    assert!(!png.is_empty());
}

#[test]
fn failed_rendering_is_reported_and_nothing_follows() {
    let mut stage = Stage::Init;
    let mut errors: Vec<String> = Vec::new();
    let mut output: Vec<String> = Vec::new();
    let mut bitmap_written = false;
    let mut viewer_started = false;
    let last = loop {
        let task = match stage.task() {
            None => break Step::Halt,
            Some(task) => task,
        };
        let outcome = match task {
            Task::WriteVector => {
                let rendered: Result<(), String> =
                    Err("Image rendering error: read-only file system".to_string());
                match rendered {
                    Ok(()) => {
                        output.push(saved_line(VECTOR_PATH));
                        Outcome::Completed
                    }
                    Err(detail) => {
                        errors.push(diagnostic(Failure::Render, &detail));
                        Outcome::Failed(Failure::Render)
                    }
                }
            }
            Task::Rasterize => {
                bitmap_written = true;
                Outcome::Completed
            }
            Task::OpenViewer => {
                viewer_started = true;
                Outcome::Completed
            }
            Task::Prepare | Task::Sample => Outcome::Completed,
        };
        match advance(stage, outcome) {
            Step::Advance(next) => stage = next,
            step => break step,
        }
    };
    assert_eq!(last, Step::Halt);
    assert_eq!(stage, Stage::Charted);
    assert_eq!(errors.len(), 1);
    assert!(errors[0].starts_with("Error saving chart:"));
    assert!(output.is_empty());
    assert!(!bitmap_written);
    assert!(!viewer_started);
}

#[test]
fn viewer_is_started_once_with_the_bitmap_as_its_only_argument() {
    let mut launches = Vec::new();
    let mut stage = Stage::Init;
    while let Some(task) = stage.task() {
        if task == Task::OpenViewer {
            launches.push(open_command(Opener::Linux, "cpu_usage.png"));
        }
        match advance(stage, Outcome::Completed) {
            Step::Advance(next) => stage = next,
            _ => break,
        }
    }
    assert_eq!(stage, Stage::Opened);
    assert_eq!(launches.len(), 1);
    assert_eq!(launches[0].program, "xdg-open");
    assert_eq!(launches[0].args, vec!["cpu_usage.png".to_string()]);
    assert_eq!(BITMAP_PATH, "cpu_usage.png");
}
