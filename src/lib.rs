//! A free-form annotation canvas engine: a document of strokes, shapes and
//! text labels, a selection, a per-frame render pass producing a display
//! list, hit-testing, polyline simplification and frame timing.
pub mod geometry;
pub mod model;
pub mod hit;
pub mod engine;
pub mod render;
pub mod export;
