//! What the waveform encoder is handed besides the samples.
//!
//! A waveform has one channel. The encoder counts the sample rate in a
//! signed 32-bit field, so a rate is handed over as the signed reading of
//! its 32 bits: unchanged below 2^31, and 2^32 less from there on.

use vstd::prelude::*;

verus! {

/// The number of channels of every waveform: one.
pub const CHANNELS: u16 = 1;

/// The sample rate as the encoder's signed field holds it.
pub open spec fn signed_rate(rate: u32) -> int {
    if rate < 0x8000_0000 {
        rate as int
    } else {
        rate - 0x1_0000_0000
    }
}

/// Converts a sample rate to the encoder's signed field.
pub fn encoder_rate(rate: u32) -> (r: i32)
    ensures
        r == signed_rate(rate),
{
    if rate < 0x8000_0000 {
        rate as i32
    } else {
        let low: u32 = rate - 0x8000_0000;
        (low as i32) - 0x7FFF_FFFF - 1
    }
}

} // verus!
