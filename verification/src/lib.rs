//! Frequency sweeps ("chirps") rendered as mono single-precision waveforms.
//!
//! A sweep is driven by single-precision arithmetic. This library holds the
//! part of a sweep that is decided rather than computed: whether a start
//! frequency or a duration is acceptable, when the running phase has left
//! one full turn and has to be wrapped, and what is handed to the waveform
//! encoder. Every decision is taken on the bit pattern of a single-precision
//! value and is stated over the number that the pattern stands for.

pub mod encoder;
pub mod phase;
pub mod single;
pub mod sweep;
