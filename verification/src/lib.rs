//! Transformation history engine for a small raster-image editor.
//!
//! The engine owns the states of the image being edited: one baseline (the
//! originally loaded image) and a linear undo stack of encoded snapshots,
//! each carrying a description of the operation that produced it.  A
//! dispatcher validates transformation requests, decodes the current image
//! through the `image` crate, and commits re-encoded results as new
//! snapshots.  The pixel-level strategies themselves (threshold
//! binarization and the skeletonization algorithms) are an outside
//! collaborator's concern: the engine decides, the caller performs them on
//! the decoded buffer and hands the result back.

pub mod cli;
pub mod codec;
pub mod decimal;
pub mod engine;
pub mod history;
pub mod request;
