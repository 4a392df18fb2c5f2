//! A stereo gain plugin core: a real-time-safe parameter bridge between a
//! control thread and an audio callback, a per-block gain stage, and the
//! parameter metadata the host sees.
//!
//! Sample and coefficient values cross the library as raw 32-bit patterns,
//! the same single word that the shared register holds, so every value is
//! transferred whole. The arithmetic that interprets those words is supplied
//! by the caller.

pub mod bridge;
pub mod engine;
pub mod params;
pub mod window;
