//! Keeping the running phase of a sweep within one full turn.
//!
//! The phase grows, or shrinks, by a small step with every sample. Once it
//! has left the span of one full turn on either side of zero, one turn is
//! taken off or put on: the cosine of the phase stays what it was, and the
//! phase stays small over a sweep of any length.

use crate::single::{Number, Single};
use vstd::arithmetic::power2::{lemma2_to64, lemma_pow2_adds, lemma_pow2_pos, pow2};
use vstd::prelude::*;

verus! {

/// The bit pattern of one full turn: the single-precision value nearest to
/// twice pi.
pub const TURN_BITS: u32 = 0x40C9_0FDB;

/// One full turn as a number: 13176795 / 2^21, a little above 6.283185.
pub open spec fn turn() -> Number {
    Number::Finite(13_176_795 * (pow2(128) as int))
}

/// What to do with a phase after it has been advanced.
#[derive(Clone, Copy, Debug, PartialEq, Eq, Structural)]
pub enum Wrap {
    /// The phase is within one turn of zero, or is not a number: leave it.
    Keep,
    /// The phase is more than one turn above zero: take one turn off.
    Down,
    /// The phase is more than one turn below zero: put one turn on.
    Up,
}

/// The wrap that a phase calls for.
pub open spec fn wrap_of(phase: Number) -> Wrap {
    if phase.greater(turn()) {
        Wrap::Down
    } else if phase.negated().greater(turn()) {
        Wrap::Up
    } else {
        Wrap::Keep
    }
}

/// One full turn.
pub fn full_turn() -> (t: Single)
    ensures
        t.bits == TURN_BITS,
        t@ == turn(),
{
    Single::from_bits(TURN_BITS)
}

/// Decides how a phase is brought back towards one full turn.
pub fn wrap(phase: Single) -> (w: Wrap)
    ensures
        w == wrap_of(phase@),
{
    let t: Single = full_turn();
    if phase.gt(t) {
        Wrap::Down
    } else if phase.neg().gt(t) {
        Wrap::Up
    } else {
        Wrap::Keep
    }
}

/// One full turn lies strictly between 6.283185 and 6.283186.
pub proof fn lemma_turn_value()
    ensures
        turn() matches Number::Finite(k) && 6_283_185 * pow2(149) < 1_000_000 * k < 6_283_186
            * pow2(149),
{
    lemma2_to64();
    lemma_pow2_adds(21, 128);
    lemma_pow2_pos(128);
    let p: nat = pow2(128);
    assert(6_283_185 * (0x20_0000 * p) < 1_000_000 * (13_176_795 * p) < 6_283_186 * (0x20_0000
        * p)) by (nonlinear_arith)
        requires
            p > 0,
    ;
}

/// No phase calls for a wrap in both directions, so the two tests may be
/// made in either order.
pub proof fn lemma_wrap_one_way(phase: Number)
    ensures
        !(phase.greater(turn()) && phase.negated().greater(turn())),
{
}

} // verus!
