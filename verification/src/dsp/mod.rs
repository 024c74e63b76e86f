//! Enumerations and integer state of the synthesis blocks.

pub mod click;
pub mod distortion;
pub mod filter;
pub mod noise;
pub mod oscillator;
pub mod pitch_envelope;
