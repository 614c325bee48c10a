//! Block layout for a minimal document-rendering pipeline.
//!
//! The crate turns a tree of styled document nodes into a tree of positioned,
//! sized boxes (the CSS box model), then flattens that box tree into an
//! ordered list of solid-color paint commands for a rasterizer.

pub mod builder;
pub mod geometry;
pub mod layout;
pub mod paint;
pub mod style;
