//! An interactive parametric spiral: its parameter state machine and the
//! per-frame generation of its coloured segments.
pub mod params;
pub mod render;
pub mod laws;
