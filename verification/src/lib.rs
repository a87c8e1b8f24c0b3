//! Core engine for driving two logical cursors ("Left" and "Right") from
//! raw pointer-device event streams.
//!
//! The library decodes per-axis hardware reports (relative motion, absolute
//! positions, multi-touch slots, buttons, synchronization markers) into
//! batched, cursor-attributed motion events. Motion is kept as exact
//! rational numbers: every delta is an integer numerator over the scale
//! denominator of the decoder's [`arith::Scale`], so the whole pipeline is
//! free of rounding. Device discovery, file descriptors, and polling are the
//! caller's business; the caller hands this library plain values.

pub mod arith;
pub mod cursor;
pub mod daemon;
pub mod decode;
pub mod discover;
pub mod events;
pub mod laws;
pub mod mapping;
