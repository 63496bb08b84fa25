//! Drag-rectangle (marquee) selection over a 2D grid of selectable items.
//!
//! The core is a per-frame pipeline of three ordered stages — drag tracker,
//! rectangle builder, selection applier — plus a pure coordinate mapper.
//! A press starts a gesture and resets all item markers; a release completes
//! it and emits a one-shot signal; the builder turns the two captured points
//! into a normalized axis-aligned rectangle; the applier marks every item
//! whose position lies inside it. World coordinates are integers.

pub mod mapper;
pub mod pipeline;
pub mod rect;
pub mod state;
