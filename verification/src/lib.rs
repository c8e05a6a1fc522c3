//! Verified core of an interactive vector-map viewer.
//!
//! The viewer loads geographic features from a spatially indexed file,
//! decodes only the features that intersect the visible region, projects
//! them into device-space paths, rasterizes them on the GPU, and overlays
//! per-frame timing statistics, all driven by a mouse-pan interaction loop.
//!
//! This crate holds the part of that system with real design content: the
//! viewport/query/projection pipeline and its interactive state machine.
//! All geographic arithmetic is carried out over fixed-point map units
//! (signed 64-bit counts of a fixed fraction of a degree), so every formula
//! here is exact and provable. The surrounding program converts between
//! floating-point degrees and map units at the boundary, and performs the
//! file, window and GPU work that cannot be verified.

pub mod controller;
pub mod overlay;
pub mod pipeline;
pub mod project;
pub mod stats;
pub mod viewport;
