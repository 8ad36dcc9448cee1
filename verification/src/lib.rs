//! Lighting engine for a rhythm-game keyboard: classifies gameplay telemetry
//! into judgement change events, animates a fading light per keyboard side,
//! and maps each side to its physical light zones.

pub mod keyboard;
pub mod lights;
pub mod ws;
