//! KickForge: the integer, boolean and text logic of a hardstyle / hardcore
//! kick synthesizer, with its contracts and laws.
//!
//! The signal path itself works on floating-point samples; this crate holds
//! the decisions around it: the parameter enumerations and their indices, the
//! noise generator's integer state, the FX rack routing, the layer solo
//! rules, the hold / capture / editor-refresh counters of the voice, the
//! parameter key naming of the editor bridge and the parsing and building of
//! the editor's messages.

pub mod dsp;
pub mod engine;
pub mod params;
pub mod text;
pub mod editor;
