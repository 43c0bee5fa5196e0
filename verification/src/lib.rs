//! Dual-tone multi-frequency (DTMF) tone sequences.
//!
//! A keypad symbol selects one row frequency and one column frequency; the
//! two sinusoids are mixed, quantized to signed 16-bit samples, laid out as
//! tone blocks separated by silence, and framed as a mono PCM WAVE file.

pub mod render;
pub mod sequence;
pub mod sine;
pub mod symbol;
pub mod synth;
pub mod wav;
