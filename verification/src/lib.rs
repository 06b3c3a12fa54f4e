//! A polyphonic software synthesizer core.
//!
//! Samples, envelope levels and parameters are fixed-point integers:
//! a sample value of `fixed::FP_ONE` stands for an amplitude of one,
//! an envelope level of `fixed::LEVEL_ONE` stands for full level, and
//! times are counted in microseconds. Every stage of the signal chain
//! is specified and verified over this integer model.

pub mod adsr;
pub mod compressor;
pub mod db;
pub mod filter;
pub mod fixed;
pub mod freqs;
pub mod gain;
pub mod lfo;
pub mod manager;
pub mod modular;
pub mod noise;
pub mod notes;
pub mod oscillators;
pub mod render;
pub mod reverb;
pub mod waves;
