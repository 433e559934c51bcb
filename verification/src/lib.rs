//! Extraction of oriented 3D box outlines from time-indexed entity data into
//! renderer-agnostic draw primitives: per-entity line batches of 12 edge
//! segments per box instance, plus world-space text label anchors.
//!
//! Coordinates, rotations and radii are carried as IEEE 754 single-precision
//! bit patterns (`u32`); the library never computes on them. All numeric
//! evaluation (composing affine transforms, transforming points) is done by
//! the caller, which hands the finished corner positions in. What is verified
//! here is everything else: the fixed edge topology of a box outline, instance
//! identity hashing, the layered color/radius/label resolution with its
//! highlight override, row normalization for the two store representations,
//! and the per-frame orchestration with reachability gating and per-entity
//! error logging.

pub mod geometry;
pub mod attributes;
pub mod extract;
pub mod identity;
pub mod rows;
