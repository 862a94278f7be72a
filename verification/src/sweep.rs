//! What a sweep accepts of its parameters.
//!
//! A linear sweep may start at any frequency that is at least zero. An
//! exponential sweep moves by a constant ratio and cannot leave zero, so its
//! start frequency has to be above zero. A duration may not be below zero.
//! The end frequency, the sample count and the sample rate are not
//! constrained. Every rule is checked before any sample is produced.

use crate::single::{Number, Single};
use vstd::prelude::*;

verus! {

/// Why the parameters of a sweep were refused.
#[derive(Clone, Copy, Debug, PartialEq, Eq, Structural)]
pub enum SweepError {
    /// The start frequency of a linear sweep is not at least zero.
    LinearStartNegative,
    /// The start frequency of an exponential sweep is not at least zero.
    ExponentialStartNegative,
    /// The start frequency of an exponential sweep is zero.
    ExponentialStartZero,
    /// The requested duration is below zero.
    NegativeDuration,
}

impl SweepError {
    /// The sentence that reports this error.
    pub fn message(&self) -> (text: &'static str)
        ensures
            text@ == match *self {
                SweepError::LinearStartNegative =>
                    "Starting frequency of linear chirp cannot be negative!"@,
                SweepError::ExponentialStartNegative =>
                    "Starting frequency of exponential chirp cannot be negative!"@,
                SweepError::ExponentialStartZero =>
                    "Starting frequency of exponential chirp cannot be zero"@,
                SweepError::NegativeDuration => "Negative length requested!"@,
            },
    {
        match self {
            SweepError::LinearStartNegative =>
                "Starting frequency of linear chirp cannot be negative!",
            SweepError::ExponentialStartNegative =>
                "Starting frequency of exponential chirp cannot be negative!",
            SweepError::ExponentialStartZero =>
                "Starting frequency of exponential chirp cannot be zero",
            SweepError::NegativeDuration => "Negative length requested!",
        }
    }
}

/// Accepts the start frequency of a linear sweep exactly when it is at least
/// zero. Either zero is accepted; a value that is not a number is refused.
pub fn check_linear_start(begin: Single) -> (r: Result<(), SweepError>)
    ensures
        r is Ok <==> begin@.at_least(Number::Finite(0)),
        r is Err ==> r == Err::<(), SweepError>(SweepError::LinearStartNegative),
        Number::Finite(0).greater(begin@) ==> r is Err,
{
    if begin.ge(Single::zero()) {
        Ok(())
    } else {
        Err(SweepError::LinearStartNegative)
    }
}

/// Accepts the start frequency of an exponential sweep exactly when it is
/// above zero. Either zero is refused as zero; a value below zero, and one
/// that is not a number, is refused as negative.
pub fn check_exponential_start(begin: Single) -> (r: Result<(), SweepError>)
    ensures
        r is Ok <==> begin@.greater(Number::Finite(0)),
        r == Err::<(), SweepError>(SweepError::ExponentialStartZero) <==> begin@
            == Number::Finite(0),
        r == Err::<(), SweepError>(SweepError::ExponentialStartNegative)
            <==> !begin@.at_least(Number::Finite(0)),
        Number::Finite(0).at_least(begin@) ==> r is Err,
{
    if !begin.ge(Single::zero()) {
        Err(SweepError::ExponentialStartNegative)
    } else if !begin.gt(Single::zero()) {
        Err(SweepError::ExponentialStartZero)
    } else {
        Ok(())
    }
}

/// Accepts a duration in seconds exactly when it is not below zero.
pub fn check_duration(seconds: Single) -> (r: Result<(), SweepError>)
    ensures
        r is Err <==> Number::Finite(0).greater(seconds@),
        r is Err ==> r == Err::<(), SweepError>(SweepError::NegativeDuration),
{
    if Single::zero().gt(seconds) {
        Err(SweepError::NegativeDuration)
    } else {
        Ok(())
    }
}

} // verus!
