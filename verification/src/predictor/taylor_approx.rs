//! The local Taylor approximator.
//!
//! It looks at the last three samples only. Their backward differences,
//! divided by powers of the mean interval between them, are the coefficients
//! of the quadratic it returns.

use crate::interface::OCTError;
use crate::predictor::{elapsed, millis_between, BrainPredictor, Quadratic};
use vstd::prelude::*;

verus! {

/// Oldest age, in milliseconds, at which the latest sample is still fresh, and
/// largest mean interval between samples.
pub const MAX_LATENCY_MS: u64 = 18;

/// Largest standard deviation, in milliseconds, of the intervals between
/// samples.
pub const MAX_LATENCY_STD_MS: u64 = 3;

/// Order of the approximation. It reads one sample more than its order.
pub const TAYLOR_POLY_ORDER: u64 = 2;

/// The approximator that extends the last three samples by their backward
/// differences.
#[derive(Debug, Clone, Copy)]
pub struct TaylorQuadraticApproximator;

/// The three gaps that an approximation is made from, oldest first, and the
/// milliseconds from the first of them to the last.
#[derive(Debug, Clone, Copy, PartialEq, Eq, Structural)]
pub struct TaylorWindow {
    /// The oldest of the three gaps.
    pub oldest: u64,
    /// The gap between the two others.
    pub middle: u64,
    /// The latest gap.
    pub latest: u64,
    /// Sum of the two intervals between the three samples, in milliseconds.
    pub span: u64,
}

/// Whether two consecutive intervals are short and even enough: their mean is
/// at most `MAX_LATENCY_MS` and their standard deviation at most
/// `MAX_LATENCY_STD_MS`. With `n = 2` intervals of sum `s` and sum of squares
/// `q`, the mean is `s / n` and the variance `(n * q - s * s) / (n * n)`.
pub open spec fn steady(first: int, second: int) -> bool {
    let s = first + second;
    let q = first * first + second * second;
    &&& s <= 2 * MAX_LATENCY_MS
    &&& 2 * q - s * s <= 4 * (MAX_LATENCY_STD_MS * MAX_LATENCY_STD_MS)
}

/// Whether the approximator accepts a history: it holds three samples or
/// more, the latest is fresh, the last three are all readings, their
/// intervals are steady, and they do not all fall into one millisecond.
pub open spec fn taylor_accepts(
    distances: Seq<Result<u64, OCTError>>,
    times: Seq<u64>,
    now: u64,
) -> bool {
    let n = distances.len() as int;
    &&& n >= TAYLOR_POLY_ORDER + 1
    &&& times.len() == n
    &&& elapsed(times[n - 1], now) <= MAX_LATENCY_MS
    &&& steady(
        elapsed(times[n - 3], times[n - 2]) as int,
        elapsed(times[n - 2], times[n - 1]) as int,
    )
    &&& elapsed(times[n - 3], times[n - 2]) + elapsed(times[n - 2], times[n - 1]) > 0
    &&& distances[n - 3] is Ok
    &&& distances[n - 2] is Ok
    &&& distances[n - 1] is Ok
}

/// The last three gaps of a history and the time they span.
pub open spec fn taylor_window(distances: Seq<Result<u64, OCTError>>, times: Seq<u64>) -> TaylorWindow
    recommends
        distances.len() >= 3,
        times.len() == distances.len(),
{
    let n = distances.len() as int;
    TaylorWindow {
        oldest: distances[n - 3]->Ok_0,
        middle: distances[n - 2]->Ok_0,
        latest: distances[n - 1]->Ok_0,
        span: (elapsed(times[n - 3], times[n - 2]) + elapsed(times[n - 2], times[n - 1])) as u64,
    }
}

/// The quadratic through the backward differences of a window. With the mean
/// interval `m = span / 2`, the coefficients are the latest gap, the first
/// difference over `m`, and the second difference over `2 * m * m`; over the
/// common denominator `span * span` these are the numerators below.
pub open spec fn taylor_coefficients(w: TaylorWindow) -> Quadratic {
    let first_difference = w.latest - w.middle;
    let second_difference = w.latest - 2 * w.middle + w.oldest;
    Quadratic {
        num0: (w.latest * (w.span * w.span)) as i128,
        num1: (2 * first_difference * w.span) as i128,
        num2: (2 * second_difference) as i128,
        den: (w.span * w.span) as i128,
    }
}

/// What the approximator predicts from a history consulted at `now`.
pub open spec fn taylor_prediction(
    distances: Seq<Result<u64, OCTError>>,
    times: Seq<u64>,
    now: u64,
) -> Option<Quadratic> {
    if taylor_accepts(distances, times, now) {
        Some(taylor_coefficients(taylor_window(distances, times)))
    } else {
        None
    }
}

impl TaylorQuadraticApproximator {
    /// Checks that a history is fit for an approximation and returns the
    /// window to approximate from.
    pub fn passes_predict_assumptions(
        distance_queue: &Vec<Result<u64, OCTError>>,
        time_queue: &Vec<u64>,
        now: u64,
    ) -> (r: Result<TaylorWindow, ()>)
        requires
            distance_queue@.len() == time_queue@.len(),
        ensures
            r is Ok <==> taylor_accepts(distance_queue@, time_queue@, now),
            r is Ok ==> r->Ok_0 == taylor_window(distance_queue@, time_queue@),
            r is Ok ==> 0 < r->Ok_0.span <= 2 * MAX_LATENCY_MS,
    {
        let n = distance_queue.len();
        if n < 3 {
            return Err(());
        }
        if millis_between(time_queue[n - 1], now) > MAX_LATENCY_MS {
            return Err(());
        }
        let first: u64 = millis_between(time_queue[n - 3], time_queue[n - 2]);
        let second: u64 = millis_between(time_queue[n - 2], time_queue[n - 1]);
        if first > 2 * MAX_LATENCY_MS || second > 2 * MAX_LATENCY_MS {
            return Err(());
        }
        let span: u64 = first + second;
        let uneven: u64 = if first >= second {
            first - second
        } else {
            second - first
        };
        assert(2 * (first * first + second * second) - (first + second) * (first + second) == uneven
            * uneven) by (nonlinear_arith)
            requires
                uneven == first - second || uneven == second - first,
        ;
        assert(uneven * uneven <= 36 * 36) by (nonlinear_arith)
            requires
                0 <= uneven <= 36,
        ;
        if span > 2 * MAX_LATENCY_MS || uneven * uneven > 4 * (MAX_LATENCY_STD_MS
            * MAX_LATENCY_STD_MS) {
            return Err(());
        }
        if span == 0 {
            return Err(());
        }
        match (&distance_queue[n - 3], &distance_queue[n - 2], &distance_queue[n - 1]) {
            (Ok(oldest), Ok(middle), Ok(latest)) => Ok(
                TaylorWindow { oldest: *oldest, middle: *middle, latest: *latest, span },
            ),
            _ => Err(()),
        }
    }

    /// Computes the coefficients of the approximation from a window.
    pub fn get_taylor_coefs(w: &TaylorWindow) -> (q: Quadratic)
        requires
            0 < w.span <= 2 * MAX_LATENCY_MS,
        ensures
            q == taylor_coefficients(*w),
            q.wf(),
    {
        let span: i128 = w.span as i128;
        let oldest: i128 = w.oldest as i128;
        let middle: i128 = w.middle as i128;
        let latest: i128 = w.latest as i128;
        assert(0 < span * span <= 1296) by (nonlinear_arith)
            requires
                0 < span <= 36,
        ;
        let den: i128 = span * span;
        assert(0 <= latest * den <= 0x1_0000_0000_0000_0000 * 1296) by (nonlinear_arith)
            requires
                0 <= latest < 0x1_0000_0000_0000_0000,
                0 < den <= 1296,
        ;
        let first_difference: i128 = latest - middle;
        let second_difference: i128 = latest - 2 * middle + oldest;
        assert(-0x1_0000_0000_0000_0000 * 72 <= 2 * first_difference * span
            <= 0x1_0000_0000_0000_0000 * 72) by (nonlinear_arith)
            requires
                -0x1_0000_0000_0000_0000 < first_difference < 0x1_0000_0000_0000_0000,
                0 < span <= 36,
        ;
        Quadratic {
            num0: latest * den,
            num1: 2 * first_difference * span,
            num2: 2 * second_difference,
            den,
        }
    }
}

impl BrainPredictor for TaylorQuadraticApproximator {
    open spec fn prediction(
        &self,
        distances: Seq<Result<u64, OCTError>>,
        times: Seq<u64>,
        now: u64,
    ) -> Option<Quadratic> {
        taylor_prediction(distances, times, now)
    }

    fn predict(&self, distances: &Vec<Result<u64, OCTError>>, times: &Vec<u64>, now: u64) -> (r:
        Option<Quadratic>) {
        match Self::passes_predict_assumptions(distances, times, now) {
            Ok(window) => Some(Self::get_taylor_coefs(&window)),
            Err(_) => None,
        }
    }

    fn train(&self) -> (ready: bool) {
        true
    }
}

/// A prediction is a function of the history alone: the time at which the
/// approximator is consulted decides whether it answers, never what it
/// answers. Consulted twice on one history, it returns the same coefficients.
pub proof fn lemma_taylor_prediction_is_repeatable(
    distances: Seq<Result<u64, OCTError>>,
    times: Seq<u64>,
    first_time: u64,
    second_time: u64,
)
    ensures
        taylor_prediction(distances, times, first_time) is Some && taylor_prediction(
            distances,
            times,
            second_time,
        ) is Some ==> taylor_prediction(distances, times, first_time) == taylor_prediction(
            distances,
            times,
            second_time,
        ),
{
}

/// The approximation passes through the latest sample: at the instant of that
/// sample it predicts the sampled gap exactly.
pub proof fn lemma_taylor_meets_latest_sample(w: TaylorWindow)
    requires
        0 < w.span <= 2 * MAX_LATENCY_MS,
    ensures
        taylor_coefficients(w).scaled_at(0) == w.latest * taylor_coefficients(w).den,
        !taylor_coefficients(w).misses(0, w.latest as int, 0),
{
    let span = w.span as int;
    let latest = w.latest as int;
    assert(0 < span * span <= 1296) by (nonlinear_arith)
        requires
            0 < span <= 36,
    ;
    assert(0 <= latest * (span * span) <= 0x1_0000_0000_0000_0000 * 1296) by (nonlinear_arith)
        requires
            0 <= latest < 0x1_0000_0000_0000_0000,
            0 < span * span <= 1296,
    ;
}

} // verus!
