//! A bouncing logo: per-frame motion and edge reflection for a sprite that
//! travels inside a window and takes a new color on every bounce.
//!
//! All lengths are fixed-point integers in micro-units (a millionth of a
//! pixel), durations are in microseconds, and color channels are fractions
//! over `CHANNEL_ONE`, so that the motion and reflection laws hold exactly.
pub mod bounds;
pub mod color;
pub mod laws;
pub mod logo;
pub mod motion;
pub mod random;
