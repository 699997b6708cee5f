//! Disk-usage reporting: command-line interpretation, size aggregation over a
//! file tree, unit formatting and report rendering.

pub mod cmd;
pub mod options;
pub mod render;
pub mod size;
