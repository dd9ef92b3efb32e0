//! Samples CPU utilisation at a fixed cadence, describes the series as a line
//! chart, rasterises the rendered chart and names the command that shows it.
//!
//! The crate holds the decisions of such a run and leaves the input and output
//! to its caller: the caller measures, sleeps, reads and writes files and
//! starts processes, and asks the library after each step what comes next.

pub mod binary32;
pub mod chart;
pub mod pipeline;
pub mod raster;
pub mod report;
pub mod sample;
pub mod sampler;
pub mod viewer;
