//! Stereo loudness sensing for ear-perk signalling.
//!
//! A block of captured audio is reduced to one loudness pair, the pair drives
//! a threshold engine with hysteresis, and the engine's decisions are encoded
//! as OSC datagrams. Everything here is a function of plain values: capturing
//! audio, keeping time and sending datagrams belong to the caller.
//!
//! Loudness and thresholds are whole numbers of `2^-32` of full scale (see
//! [`level`]); timestamps and durations are whole milliseconds on a clock of
//! the caller's choosing.

pub mod audio;
pub mod config;
pub mod decimal;
pub mod info;
pub mod laws;
pub mod level;
pub mod osc;
pub mod process;
