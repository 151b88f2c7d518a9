//! A frame-to-frame image differencer.
//!
//! The engine holds the most recently ingested frame and the one before it.
//! Each ingestion validates the new frame's shape, returns the per-sample
//! saturating difference against the held frame, and rotates the history so
//! the new frame becomes the held one.

pub mod frame;
pub mod image_diff;

pub use frame::Frame;
pub use image_diff::ImageDiff;
pub use image_diff::ShapeMismatch;
