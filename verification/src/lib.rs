//! Verified core of a small wgpu renderer: GPU query read-back, pipeline
//! statistics, surface bookkeeping, input handling, vertex layouts, draw
//! planning and frame-time history.

pub mod words;
pub mod query;
pub mod pipeline_statistics;
pub mod frame_stats;
pub mod surface;
pub mod input;
pub mod history;
pub mod layout;
pub mod model;
pub mod grid;
