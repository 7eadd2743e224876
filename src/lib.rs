//! Per-macro input automation engine: configuration checks, jittered firing
//! intervals, hotkey edge detection and the engine's start/stop/toggle state.

pub mod config;
pub mod engine;
pub mod hotkey;
pub mod jitter;
pub mod keys;
