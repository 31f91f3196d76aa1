//! A verified mirror of a remotely described visual scene.
//!
//! Inbound messages describe incremental diffs to a document's display
//! list (rectangles, borders, text) and to a registry of font resources.
//! This crate holds the engine that classifies those diffs, mutates an
//! addressable scene representation, resolves font references, and
//! exposes point-in-time snapshots to a frame producer.  Transport and
//! the rendering backend live outside the library; they hand in decoded
//! messages as [`json::Json`] trees and carry the produced primitives on.

pub mod engine;
pub mod frame;
pub mod json;
pub mod laws;
pub mod listener;
pub mod render;
pub mod resources;
pub mod scene;
