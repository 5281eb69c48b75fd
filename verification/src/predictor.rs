//! Short-horizon prediction of the surface gap.
//!
//! A predictor reads a history of distance samples with their timestamps and
//! either declines or returns a quadratic in the time since the latest sample.
//! Timestamps are milliseconds on a monotonic clock; gaps are nanometres. The
//! coefficients are kept as exact fractions over one common denominator.

use crate::interface::OCTError;
use vstd::prelude::*;

pub mod oracle_approx;
pub mod quadratic_regression;
pub mod taylor_approx;

verus! {

/// Largest magnitude that a numerator of a well-formed quadratic may have.
pub const MAX_NUMERATOR: i128 = 0x100_0000_0000_0000_0000_0000_0000_0000;

/// Largest denominator that a well-formed quadratic may have.
pub const MAX_DENOMINATOR: i128 = 0x100_0000_0000_0000;

/// The predicted gap `(num0 + num1 * t + num2 * t * t) / den`, in nanometres,
/// `t` milliseconds after the latest timestamp of the history it was made from.
#[derive(Debug, Clone, Copy, PartialEq, Eq, Structural)]
pub struct Quadratic {
    /// Numerator of the constant coefficient, in nm.
    pub num0: i128,
    /// Numerator of the linear coefficient, in nm/ms.
    pub num1: i128,
    /// Numerator of the quadratic coefficient, in nm/ms².
    pub num2: i128,
    /// The common denominator.
    pub den: i128,
}

impl Quadratic {
    /// The denominator is positive and every field is small enough for the
    /// comparisons below to be computed without overflow.
    pub open spec fn wf(self) -> bool {
        &&& 0 < self.den <= MAX_DENOMINATOR
        &&& -MAX_NUMERATOR <= self.num0 <= MAX_NUMERATOR
        &&& -MAX_NUMERATOR <= self.num1 <= MAX_NUMERATOR
        &&& -MAX_NUMERATOR <= self.num2 <= MAX_NUMERATOR
    }

    /// The predicted gap at `t`, multiplied by the denominator.
    pub open spec fn scaled_at(self, t: int) -> int {
        self.num0 + self.num1 * t + self.num2 * t * t
    }

    /// Whether `value` lies more than `limit` away from the predicted gap at
    /// `t`. Both sides of the comparison are multiplied by the denominator.
    pub open spec fn misses(self, t: int, value: int, limit: int) -> bool {
        let error = value * self.den - self.scaled_at(t);
        error > limit * self.den || -error > limit * self.den
    }

    /// Whether `value` lies more than `limit` away from the gap predicted for
    /// the instant of the latest sample.
    pub fn misses_latest(&self, value: u64, limit: u64) -> (b: bool)
        requires
            self.wf(),
        ensures
            b == self.misses(0, value as int, limit as int),
    {
        let den: i128 = self.den;
        let scaled_value: i128 = mul_by_denominator(value, den);
        let scaled_limit: i128 = mul_by_denominator(limit, den);
        let error: i128 = scaled_value - self.num0;
        error > scaled_limit || -error > scaled_limit
    }
}

/// The product of a 64-bit quantity and a denominator.
fn mul_by_denominator(value: u64, den: i128) -> (p: i128)
    requires
        0 < den <= MAX_DENOMINATOR,
    ensures
        p == value * den,
        0 <= p <= 0x1_0000_0000_0000_0000 * MAX_DENOMINATOR,
{
    assert(0 <= value * den <= 0x1_0000_0000_0000_0000 * MAX_DENOMINATOR) by (nonlinear_arith)
        requires
            0 <= value < 0x1_0000_0000_0000_0000,
            0 < den <= MAX_DENOMINATOR,
    ;
    let wide: i128 = value as i128;
    wide * den
}

/// The gap that a sample carries, if it is a reading and not an error.
pub open spec fn reading(sample: Result<u64, OCTError>) -> Option<u64> {
    match sample {
        Ok(gap) => Some(gap),
        Err(_) => None,
    }
}

/// The milliseconds from `earlier` to `later`, or zero if `later` comes first.
pub open spec fn elapsed(earlier: u64, later: u64) -> u64 {
    if later >= earlier {
        (later - earlier) as u64
    } else {
        0
    }
}

/// The milliseconds from `earlier` to `later`, or zero if `later` comes first.
pub fn millis_between(earlier: u64, later: u64) -> (ms: u64)
    ensures
        ms == elapsed(earlier, later),
{
    if later >= earlier {
        later - earlier
    } else {
        0
    }
}

/// A source of surface predictions.
pub trait BrainPredictor {
    /// What `predict` returns: a function of the history and of the time at
    /// which it is consulted, and of nothing else.
    spec fn prediction(
        &self,
        distances: Seq<Result<u64, OCTError>>,
        times: Seq<u64>,
        now: u64,
    ) -> Option<Quadratic>;

    /// Predicts the surface gap from a history of samples and their
    /// timestamps, or declines with `None` when the data is too thin or stale.
    fn predict(&self, distances: &Vec<Result<u64, OCTError>>, times: &Vec<u64>, now: u64) -> (r:
        Option<Quadratic>)
        requires
            distances@.len() == times@.len(),
        ensures
            r == self.prediction(distances@, times@, now),
            r is Some ==> r->0.wf(),
    ;

    /// Prepares the predictor. The predictors here have nothing to learn.
    fn train(&self) -> (ready: bool)
        ensures
            ready,
    ;
}

} // verus!
