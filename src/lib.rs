//! Reactive control core for beat-synchronised keyboard lighting.
//!
//! Quantities that the lighting logic reads are held in fixed point:
//! a master-volume sample in units of `1 / VOLUME_ONE`, a beat level
//! (beat volume, rolling intensity) in units of `1 / LEVEL_ONE`, and the
//! volume-derived intensity scale as an exact fraction.
pub mod config;
pub mod volume;
pub mod color;
pub mod render;
