//! The description of the line chart: a title, two axes and one series.

use crate::sample::Sample;
use vstd::prelude::*;
use vstd::string::*;

verus! {

/// The width of the canvas on which the chart is laid out, in pixels.
pub const CANVAS_WIDTH: u32 = 1000;

/// The height of that canvas, in pixels.
pub const CANVAS_HEIGHT: u32 = 1000;

/// A line chart with one series. The points are drawn in the order in which
/// they stand, the index of a sample along the x axis and its value along
/// the y axis.
#[derive(Debug)]
pub struct ChartSpec {
    pub title: String,
    pub x_axis_label: String,
    pub y_axis_label: String,
    pub series_name: String,
    pub points: Vec<Sample>,
}

/// A [`ChartSpec`] as text and a sequence of samples.
pub struct ChartModel {
    pub title: Seq<char>,
    pub x_axis_label: Seq<char>,
    pub y_axis_label: Seq<char>,
    pub series_name: Seq<char>,
    pub points: Seq<Sample>,
}

impl View for ChartSpec {
    type V = ChartModel;

    open spec fn view(&self) -> ChartModel {
        ChartModel {
            title: self.title@,
            x_axis_label: self.x_axis_label@,
            y_axis_label: self.y_axis_label@,
            series_name: self.series_name@,
            points: self.points@,
        }
    }
}

/// The chart of a run over the given points.
pub open spec fn spec_cpu_usage_chart(points: Seq<Sample>) -> ChartModel {
    ChartModel {
        title: "CPU USAGE"@,
        x_axis_label: "Time (s)"@,
        y_axis_label: "CPU Usage (%)"@,
        series_name: "CPU Usage"@,
        points,
    }
}

/// Describes a line chart of `points`. The series holds the points as they
/// are given: none is left out, added or moved.
pub fn build(
    points: Vec<Sample>,
    title: &str,
    x_label: &str,
    y_label: &str,
    series_name: &str,
) -> (chart: ChartSpec)
    ensures
        chart@ == (ChartModel {
            title: title@,
            x_axis_label: x_label@,
            y_axis_label: y_label@,
            series_name: series_name@,
            points: points@,
        }),
        chart.points@ == points@,
{
    ChartSpec {
        title: String::from_str(title),
        x_axis_label: String::from_str(x_label),
        y_axis_label: String::from_str(y_label),
        series_name: String::from_str(series_name),
        points,
    }
}

/// Describes the chart of a run: the CPU usage in percent over the time.
pub fn cpu_usage_chart(points: Vec<Sample>) -> (chart: ChartSpec)
    ensures
        chart@ == spec_cpu_usage_chart(points@),
        chart.points@ == points@,
{
    build(points, "CPU USAGE", "Time (s)", "CPU Usage (%)", "CPU Usage")
}

} // verus!
