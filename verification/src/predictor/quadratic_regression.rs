//! The least-squares quadratic.
//!
//! It drops the samples that are errors, takes the last five that remain with
//! their own timestamps, and fits a quadratic in the time before the latest of
//! them. The fit solves the normal equations exactly, in integers.

use crate::interface::OCTError;
use crate::predictor::taylor_approx::MAX_LATENCY_MS;
use crate::predictor::{elapsed, millis_between, BrainPredictor, Quadratic};
use vstd::arithmetic::mul::{
    lemma_mul_is_associative, lemma_mul_is_distributive_add,
    lemma_mul_is_distributive_add_other_way, lemma_mul_is_distributive_sub,
    lemma_mul_nonnegative, lemma_mul_unary_negation, lemma_mul_upper_bound,
};
use vstd::prelude::*;

verus! {

/// Number of readings that a fit is made from.
pub const LR_SIZE: usize = 5;

/// Oldest age, in milliseconds, that the first reading of a fit may have:
/// 25 ms for each of the `LR_SIZE` readings.
pub const MAX_LR_LATENCY_MS: u64 = 125;

/// Longest time, in milliseconds, that the readings of a fit may span: their
/// `LR_SIZE - 1` intervals at the largest mean interval.
pub const MAX_LR_SPAN_MS: u64 = 72;

/// The least-squares predictor.
#[derive(Debug, Clone, Copy)]
pub struct QuadraticRegression;

/// A distance sample that is not an error, with its timestamp.
#[derive(Debug, Clone, Copy, PartialEq, Eq, Structural)]
pub struct Reading {
    /// The gap in nanometres.
    pub gap: u64,
    /// When the sample was taken, in milliseconds.
    pub time: u64,
}

/// The readings of a history in their order, errors left out.
pub open spec fn survivors(distances: Seq<Result<u64, OCTError>>, times: Seq<u64>) -> Seq<Reading>
    recommends
        distances.len() == times.len(),
    decreases distances.len(),
{
    if distances.len() == 0 {
        Seq::empty()
    } else {
        let earlier = survivors(distances.drop_last(), times.drop_last());
        match distances.last() {
            Ok(gap) => earlier.push(Reading { gap, time: times.last() }),
            Err(_) => earlier,
        }
    }
}

/// The sum of the intervals between consecutive readings, in milliseconds.
pub open spec fn intervals_sum(w: Seq<Reading>) -> int
    decreases w.len(),
{
    if w.len() <= 1 {
        0
    } else {
        intervals_sum(w.drop_last()) + elapsed(w[w.len() - 2].time, w.last().time)
    }
}

/// The last `LR_SIZE` readings of a history.
pub open spec fn regression_window(
    distances: Seq<Result<u64, OCTError>>,
    times: Seq<u64>,
) -> Seq<Reading>
    recommends
        survivors(distances, times).len() >= LR_SIZE,
{
    let s = survivors(distances, times);
    s.subrange(s.len() - LR_SIZE, s.len() as int)
}

/// Whether the predictor accepts a history: at least `LR_SIZE` readings
/// survive, the oldest of the last `LR_SIZE` is not stale, and the mean
/// interval between them is at most `MAX_LATENCY_MS`.
pub open spec fn regression_accepts(
    distances: Seq<Result<u64, OCTError>>,
    times: Seq<u64>,
    now: u64,
) -> bool {
    let w = regression_window(distances, times);
    &&& survivors(distances, times).len() >= LR_SIZE
    &&& elapsed(w[0].time, now) <= MAX_LR_LATENCY_MS
    &&& intervals_sum(w) <= (LR_SIZE - 1) * MAX_LATENCY_MS
}

/// The sums that the normal equations are made of. With `u` the time of a
/// reading minus the time of the latest one (so `u <= 0`) and `y` its gap,
/// `m_k` is the sum of `u^k` and `r_k` the sum of `u^k * y` over the readings.
pub struct Moments {
    pub m0: int,
    pub m1: int,
    pub m2: int,
    pub m3: int,
    pub m4: int,
    pub r0: int,
    pub r1: int,
    pub r2: int,
}

/// The moments of a sequence of readings about the instant `latest`.
pub open spec fn moments(w: Seq<Reading>, latest: u64) -> Moments
    decreases w.len(),
{
    if w.len() == 0 {
        Moments { m0: 0, m1: 0, m2: 0, m3: 0, m4: 0, r0: 0, r1: 0, r2: 0 }
    } else {
        let rest = moments(w.drop_last(), latest);
        let u = -(elapsed(w.last().time, latest) as int);
        let y = w.last().gap as int;
        Moments {
            m0: rest.m0 + 1,
            m1: rest.m1 + u,
            m2: rest.m2 + u * u,
            m3: rest.m3 + u * u * u,
            m4: rest.m4 + u * u * u * u,
            r0: rest.r0 + y,
            r1: rest.r1 + u * y,
            r2: rest.r2 + u * u * y,
        }
    }
}

impl Moments {
    /// The determinant of the matrix of the normal equations, whose rows are
    /// `(m0, m1, m2)`, `(m1, m2, m3)` and `(m2, m3, m4)`.
    pub open spec fn determinant(self) -> int {
        self.m0 * (self.m2 * self.m4 - self.m3 * self.m3) + self.m1 * (self.m2 * self.m3 - self.m1
            * self.m4) + self.m2 * (self.m1 * self.m3 - self.m2 * self.m2)
    }

    /// The determinant with the right-hand side in place of the first column.
    pub open spec fn numerator0(self) -> int {
        (self.m2 * self.m4 - self.m3 * self.m3) * self.r0 + (self.m2 * self.m3 - self.m1
            * self.m4) * self.r1 + (self.m1 * self.m3 - self.m2 * self.m2) * self.r2
    }

    /// The determinant with the right-hand side in place of the second column.
    pub open spec fn numerator1(self) -> int {
        (self.m2 * self.m3 - self.m1 * self.m4) * self.r0 + (self.m0 * self.m4 - self.m2
            * self.m2) * self.r1 + (self.m1 * self.m2 - self.m0 * self.m3) * self.r2
    }

    /// The determinant with the right-hand side in place of the third column.
    pub open spec fn numerator2(self) -> int {
        (self.m1 * self.m3 - self.m2 * self.m2) * self.r0 + (self.m1 * self.m2 - self.m0
            * self.m3) * self.r1 + (self.m0 * self.m2 - self.m1 * self.m1) * self.r2
    }

    /// Whether the coefficients `n0 / d`, `n1 / d`, `n2 / d` solve the normal
    /// equations, each equation multiplied by `d`.
    pub open spec fn solved_by(self, n0: int, n1: int, n2: int, d: int) -> bool {
        &&& self.m0 * n0 + self.m1 * n1 + self.m2 * n2 == d * self.r0
        &&& self.m1 * n0 + self.m2 * n1 + self.m3 * n2 == d * self.r1
        &&& self.m2 * n0 + self.m3 * n1 + self.m4 * n2 == d * self.r2
    }

    /// The quadratic that solves the normal equations, over a positive
    /// denominator; none if the equations are singular.
    pub open spec fn solution(self) -> Option<Quadratic> {
        let d = self.determinant();
        if d == 0 {
            None
        } else if d > 0 {
            Some(
                Quadratic {
                    num0: self.numerator0() as i128,
                    num1: self.numerator1() as i128,
                    num2: self.numerator2() as i128,
                    den: d as i128,
                },
            )
        } else {
            Some(
                Quadratic {
                    num0: (-self.numerator0()) as i128,
                    num1: (-self.numerator1()) as i128,
                    num2: (-self.numerator2()) as i128,
                    den: (-d) as i128,
                },
            )
        }
    }
}

/// A factor distributes over a difference of two products.
proof fn lemma_expand(x: int, a: int, b: int, c: int, d: int)
    ensures
        x * (a * b - c * d) == x * a * b - x * c * d,
{
    lemma_mul_is_distributive_sub(x, a * b, c * d);
    lemma_mul_is_associative(x, a, b);
    lemma_mul_is_associative(x, c, d);
}

/// A product of three factors does not depend on their order.
proof fn lemma_reorder(a: int, b: int, c: int)
    ensures
        a * b * c == a * c * b,
        a * b * c == b * a * c,
        a * b * c == b * c * a,
        a * b * c == c * a * b,
        a * b * c == c * b * a,
{
    lemma_mul_is_associative(a, b, c);
    lemma_mul_is_associative(a, c, b);
    lemma_mul_is_associative(b, a, c);
    lemma_mul_is_associative(b, c, a);
    lemma_mul_is_associative(c, a, b);
    lemma_mul_is_associative(c, b, a);
}

/// The cofactors of a row of the matrix annihilate every other row.
proof fn lemma_cofactors_annihilate(m0: int, m1: int, m2: int, m3: int, m4: int)
    ensures
        m0 * (m2 * m3 - m1 * m4) + m1 * (m0 * m4 - m2 * m2) + m2 * (m1 * m2 - m0 * m3) == 0,
        m0 * (m1 * m3 - m2 * m2) + m1 * (m1 * m2 - m0 * m3) + m2 * (m0 * m2 - m1 * m1) == 0,
        m1 * (m2 * m4 - m3 * m3) + m2 * (m2 * m3 - m1 * m4) + m3 * (m1 * m3 - m2 * m2) == 0,
        m1 * (m1 * m3 - m2 * m2) + m2 * (m1 * m2 - m0 * m3) + m3 * (m0 * m2 - m1 * m1) == 0,
        m2 * (m2 * m4 - m3 * m3) + m3 * (m2 * m3 - m1 * m4) + m4 * (m1 * m3 - m2 * m2) == 0,
        m2 * (m2 * m3 - m1 * m4) + m3 * (m0 * m4 - m2 * m2) + m4 * (m1 * m2 - m0 * m3) == 0,
{
    lemma_expand_all(m0, m1, m2, m3, m4);
}

/// The determinant is the same whichever row it is expanded along.
proof fn lemma_determinant_by_rows(m0: int, m1: int, m2: int, m3: int, m4: int)
    ensures
        m1 * (m2 * m3 - m1 * m4) + m2 * (m0 * m4 - m2 * m2) + m3 * (m1 * m2 - m0 * m3) == m0 * (m2
            * m4 - m3 * m3) + m1 * (m2 * m3 - m1 * m4) + m2 * (m1 * m3 - m2 * m2),
        m2 * (m1 * m3 - m2 * m2) + m3 * (m1 * m2 - m0 * m3) + m4 * (m0 * m2 - m1 * m1) == m0 * (m2
            * m4 - m3 * m3) + m1 * (m2 * m3 - m1 * m4) + m2 * (m1 * m3 - m2 * m2),
{
    lemma_expand_all(m0, m1, m2, m3, m4);
}

/// Every product of an entry with a cofactor, written out as a difference of
/// two products of three entries, in every order of their factors.
proof fn lemma_expand_all(m0: int, m1: int, m2: int, m3: int, m4: int)
    ensures
        m0 * (m2 * m4 - m3 * m3) == m0 * m2 * m4 - m0 * m3 * m3,
        m0 * (m2 * m3 - m1 * m4) == m0 * m2 * m3 - m0 * m1 * m4,
        m0 * (m1 * m3 - m2 * m2) == m0 * m1 * m3 - m0 * m2 * m2,
        m1 * (m2 * m4 - m3 * m3) == m1 * m2 * m4 - m1 * m3 * m3,
        m1 * (m2 * m3 - m1 * m4) == m1 * m2 * m3 - m1 * m1 * m4,
        m1 * (m1 * m3 - m2 * m2) == m1 * m1 * m3 - m1 * m2 * m2,
        m1 * (m0 * m4 - m2 * m2) == m0 * m1 * m4 - m1 * m2 * m2,
        m1 * (m1 * m2 - m0 * m3) == m1 * m1 * m2 - m0 * m1 * m3,
        m2 * (m2 * m4 - m3 * m3) == m2 * m2 * m4 - m2 * m3 * m3,
        m2 * (m2 * m3 - m1 * m4) == m2 * m2 * m3 - m1 * m2 * m4,
        m2 * (m1 * m3 - m2 * m2) == m1 * m2 * m3 - m2 * m2 * m2,
        m2 * (m0 * m4 - m2 * m2) == m0 * m2 * m4 - m2 * m2 * m2,
        m2 * (m1 * m2 - m0 * m3) == m1 * m2 * m2 - m0 * m2 * m3,
        m2 * (m0 * m2 - m1 * m1) == m0 * m2 * m2 - m1 * m1 * m2,
        m3 * (m2 * m3 - m1 * m4) == m2 * m3 * m3 - m1 * m3 * m4,
        m3 * (m1 * m3 - m2 * m2) == m1 * m3 * m3 - m2 * m2 * m3,
        m3 * (m0 * m4 - m2 * m2) == m0 * m3 * m4 - m2 * m2 * m3,
        m3 * (m1 * m2 - m0 * m3) == m1 * m2 * m3 - m0 * m3 * m3,
        m3 * (m0 * m2 - m1 * m1) == m0 * m2 * m3 - m1 * m1 * m3,
        m4 * (m1 * m3 - m2 * m2) == m1 * m3 * m4 - m2 * m2 * m4,
        m4 * (m1 * m2 - m0 * m3) == m1 * m2 * m4 - m0 * m3 * m4,
        m4 * (m0 * m2 - m1 * m1) == m0 * m2 * m4 - m1 * m1 * m4,
{
    lemma_expand(m0, m2, m4, m3, m3);
    lemma_expand(m1, m2, m3, m1, m4);
    lemma_expand(m2, m1, m3, m2, m2);
    lemma_expand(m2, m0, m4, m2, m2);
    lemma_expand(m3, m1, m2, m0, m3);
    lemma_expand(m4, m0, m2, m1, m1);
    lemma_reorder(m0, m2, m4);
    lemma_reorder(m0, m3, m3);
    lemma_reorder(m1, m2, m3);
    lemma_reorder(m1, m1, m4);
    lemma_reorder(m2, m2, m2);
    lemma_expand(m0, m2, m3, m1, m4);
    lemma_expand(m1, m0, m4, m2, m2);
    lemma_expand(m2, m1, m2, m0, m3);
    lemma_expand(m0, m1, m3, m2, m2);
    lemma_expand(m1, m1, m2, m0, m3);
    lemma_expand(m2, m0, m2, m1, m1);
    lemma_expand(m1, m2, m4, m3, m3);
    lemma_expand(m2, m2, m3, m1, m4);
    lemma_expand(m3, m1, m3, m2, m2);
    lemma_expand(m3, m0, m2, m1, m1);
    lemma_expand(m1, m1, m3, m2, m2);
    lemma_expand(m2, m2, m4, m3, m3);
    lemma_expand(m3, m2, m3, m1, m4);
    lemma_expand(m4, m1, m3, m2, m2);
    lemma_expand(m3, m0, m4, m2, m2);
    lemma_expand(m4, m1, m2, m0, m3);
    lemma_reorder(m0, m2, m3);
    lemma_reorder(m0, m1, m4);
    lemma_reorder(m1, m2, m2);
    lemma_reorder(m0, m1, m3);
    lemma_reorder(m0, m2, m2);
    lemma_reorder(m1, m1, m2);
    lemma_reorder(m1, m2, m4);
    lemma_reorder(m1, m3, m3);
    lemma_reorder(m2, m2, m3);
    lemma_reorder(m1, m1, m3);
    lemma_reorder(m2, m2, m4);
    lemma_reorder(m2, m3, m3);
    lemma_reorder(m1, m3, m4);
    lemma_reorder(m0, m3, m4);
}

/// A factor distributes over a sum of three products.
proof fn lemma_dot(x: int, u: int, v: int, w: int, r0: int, r1: int, r2: int)
    ensures
        x * (u * r0 + v * r1 + w * r2) == (x * u) * r0 + (x * v) * r1 + (x * w) * r2,
{
    lemma_mul_is_distributive_add(x, u * r0 + v * r1, w * r2);
    lemma_mul_is_distributive_add(x, u * r0, v * r1);
    lemma_mul_is_associative(x, u, r0);
    lemma_mul_is_associative(x, v, r1);
    lemma_mul_is_associative(x, w, r2);
}

/// A sum of three terms distributes over a factor.
proof fn lemma_collect(a: int, b: int, c: int, r: int)
    ensures
        (a + b + c) * r == a * r + b * r + c * r,
{
    lemma_mul_is_distributive_add_other_way(r, a + b, c);
    lemma_mul_is_distributive_add_other_way(r, a, b);
}

/// A row of the matrix times the vector of numerators, sorted by the entries
/// of the right-hand side.
proof fn lemma_row_times_numerators(
    a0: int,
    a1: int,
    a2: int,
    c00: int,
    c01: int,
    c02: int,
    c11: int,
    c12: int,
    c22: int,
    r0: int,
    r1: int,
    r2: int,
)
    ensures
        a0 * (c00 * r0 + c01 * r1 + c02 * r2) + a1 * (c01 * r0 + c11 * r1 + c12 * r2) + a2 * (c02
            * r0 + c12 * r1 + c22 * r2) == (a0 * c00 + a1 * c01 + a2 * c02) * r0 + (a0 * c01 + a1
            * c11 + a2 * c12) * r1 + (a0 * c02 + a1 * c12 + a2 * c22) * r2,
{
    lemma_dot(a0, c00, c01, c02, r0, r1, r2);
    lemma_dot(a1, c01, c11, c12, r0, r1, r2);
    lemma_dot(a2, c02, c12, c22, r0, r1, r2);
    lemma_collect(a0 * c00, a1 * c01, a2 * c02, r0);
    lemma_collect(a0 * c01, a1 * c11, a2 * c12, r1);
    lemma_collect(a0 * c02, a1 * c12, a2 * c22, r2);
}

/// The quadratic that `solution` returns is the least-squares fit: its
/// coefficients solve the normal equations exactly.
pub proof fn lemma_solution_solves_normal_equations(m: Moments)
    ensures
        m.solved_by(m.numerator0(), m.numerator1(), m.numerator2(), m.determinant()),
        m.solved_by(-m.numerator0(), -m.numerator1(), -m.numerator2(), -m.determinant()),
{
    let Moments { m0, m1, m2, m3, m4, r0, r1, r2 } = m;
    let c00 = m2 * m4 - m3 * m3;
    let c01 = m2 * m3 - m1 * m4;
    let c02 = m1 * m3 - m2 * m2;
    let c11 = m0 * m4 - m2 * m2;
    let c12 = m1 * m2 - m0 * m3;
    let c22 = m0 * m2 - m1 * m1;
    let d = m.determinant();
    let n0 = m.numerator0();
    let n1 = m.numerator1();
    let n2 = m.numerator2();
    lemma_cofactors_annihilate(m0, m1, m2, m3, m4);
    lemma_determinant_by_rows(m0, m1, m2, m3, m4);
    lemma_row_times_numerators(m0, m1, m2, c00, c01, c02, c11, c12, c22, r0, r1, r2);
    lemma_row_times_numerators(m1, m2, m3, c00, c01, c02, c11, c12, c22, r0, r1, r2);
    lemma_row_times_numerators(m2, m3, m4, c00, c01, c02, c11, c12, c22, r0, r1, r2);
    assert(m0 * n0 + m1 * n1 + m2 * n2 == d * r0);
    assert(m1 * n0 + m2 * n1 + m3 * n2 == d * r1);
    assert(m2 * n0 + m3 * n1 + m4 * n2 == d * r2);
    lemma_mul_unary_negation(m0, n0);
    lemma_mul_unary_negation(m1, n0);
    lemma_mul_unary_negation(m2, n0);
    lemma_mul_unary_negation(m1, n1);
    lemma_mul_unary_negation(m2, n1);
    lemma_mul_unary_negation(m3, n1);
    lemma_mul_unary_negation(m2, n2);
    lemma_mul_unary_negation(m3, n2);
    lemma_mul_unary_negation(m4, n2);
    lemma_mul_unary_negation(d, r0);
    lemma_mul_unary_negation(d, r1);
    lemma_mul_unary_negation(d, r2);
}

/// A reading lies no further before the latest one than the intervals between
/// the readings add up to.
pub proof fn lemma_elapsed_within_span(w: Seq<Reading>, k: int)
    requires
        0 <= k < w.len(),
    ensures
        elapsed(w[k].time, w.last().time) <= intervals_sum(w),
        0 <= intervals_sum(w),
    decreases w.len(),
{
    if w.len() > 1 {
        let earlier = w.drop_last();
        if k < w.len() - 1 {
            lemma_elapsed_within_span(earlier, k);
        } else {
            lemma_elapsed_within_span(earlier, 0);
        }
    }
}

/// The magnitude of a product is at most the product of the magnitudes.
proof fn lemma_product_within(a: int, b: int, la: int, lb: int)
    requires
        -la <= a <= la,
        -lb <= b <= lb,
    ensures
        -(la * lb) <= a * b <= la * lb,
{
    let ma = if a < 0 { -a } else { a };
    let mb = if b < 0 { -b } else { b };
    lemma_mul_upper_bound(ma, la, mb, lb);
    lemma_mul_nonnegative(ma, mb);
    lemma_mul_unary_negation(a, b);
    lemma_mul_unary_negation(a, -b);
}

/// A product whose factors are known to be small enough for it to fit.
fn mul_within(a: i128, b: i128, Ghost(la): Ghost<int>, Ghost(lb): Ghost<int>) -> (p: i128)
    requires
        -la <= a <= la,
        -lb <= b <= lb,
        la * lb <= i128::MAX,
    ensures
        p == a * b,
        -(la * lb) <= p <= la * lb,
{
    proof {
        lemma_product_within(a as int, b as int, la, lb);
    }
    a * b
}

/// What the predictor returns for a history consulted at `now`.
pub open spec fn regression_prediction(
    distances: Seq<Result<u64, OCTError>>,
    times: Seq<u64>,
    now: u64,
) -> Option<Quadratic> {
    if regression_accepts(distances, times, now) {
        let w = regression_window(distances, times);
        moments(w, w.last().time).solution()
    } else {
        None
    }
}

impl QuadraticRegression {
    /// Checks that a history is fit for a regression and returns the readings
    /// to fit: the last `LR_SIZE` that are not errors.
    pub fn passes_predict_assumptions(
        distance_queue: &Vec<Result<u64, OCTError>>,
        time_queue: &Vec<u64>,
        now: u64,
    ) -> (r: Result<Vec<Reading>, ()>)
        requires
            distance_queue@.len() == time_queue@.len(),
        ensures
            r is Ok <==> regression_accepts(distance_queue@, time_queue@, now),
            r matches Ok(w) ==> w@ == regression_window(distance_queue@, time_queue@),
            r matches Ok(w) ==> w@.len() == LR_SIZE && intervals_sum(w@) <= MAX_LR_SPAN_MS,
    {
        let n = distance_queue.len();
        let mut readings: Vec<Reading> = Vec::new();
        let mut i: usize = 0;
        while i < n
            invariant
                i <= n,
                n == distance_queue@.len(),
                n == time_queue@.len(),
                readings@ == survivors(distance_queue@.take(i as int), time_queue@.take(i as int)),
            decreases n - i,
        {
            proof {
                assert(distance_queue@.take(i as int + 1).drop_last() == distance_queue@.take(
                    i as int,
                ));
                assert(time_queue@.take(i as int + 1).drop_last() == time_queue@.take(i as int));
            }
            match &distance_queue[i] {
                Ok(gap) => {
                    readings.push(Reading { gap: *gap, time: time_queue[i] });
                },
                Err(_) => {},
            }
            i = i + 1;
        }
        proof {
            assert(distance_queue@.take(n as int) == distance_queue@);
            assert(time_queue@.take(n as int) == time_queue@);
        }
        let kept = readings.len();
        if kept < LR_SIZE {
            return Err(());
        }
        let mut window: Vec<Reading> = Vec::new();
        let mut k: usize = 0;
        while k < LR_SIZE
            invariant
                k <= LR_SIZE,
                kept == readings@.len(),
                kept >= LR_SIZE,
                window@ == readings@.subrange(kept - LR_SIZE, kept - LR_SIZE + k),
            decreases LR_SIZE - k,
        {
            window.push(readings[kept - LR_SIZE + k]);
            proof {
                assert(window@ == readings@.subrange(kept - LR_SIZE, kept - LR_SIZE + k + 1));
            }
            k = k + 1;
        }
        if millis_between(window[0].time, now) > MAX_LR_LATENCY_MS {
            return Err(());
        }
        let mut total: u128 = 0;
        let mut j: usize = 1;
        while j < LR_SIZE
            invariant
                1 <= j <= LR_SIZE,
                window@.len() == LR_SIZE,
                total == intervals_sum(window@.take(j as int)),
                total <= (j - 1) * 0xffff_ffff_ffff_ffff,
            decreases LR_SIZE - j,
        {
            proof {
                assert(window@.take(j as int + 1).drop_last() == window@.take(j as int));
            }
            let step: u64 = millis_between(window[j - 1].time, window[j].time);
            total = total + step as u128;
            j = j + 1;
        }
        proof {
            assert(window@.take(LR_SIZE as int) == window@);
        }
        if total > MAX_LR_SPAN_MS as u128 {
            return Err(());
        }
        Ok(window)
    }

    /// Fits a quadratic to `LR_SIZE` readings by solving the normal equations.
    /// Returns `None` when the equations are singular, as they are when the
    /// readings share fewer than three distinct timestamps.
    pub fn regress(window: &Vec<Reading>) -> (r: Option<Quadratic>)
        requires
            window@.len() == LR_SIZE,
            intervals_sum(window@) <= MAX_LR_SPAN_MS,
        ensures
            r == moments(window@, window@.last().time).solution(),
            r is Some ==> r->0.wf(),
            r matches Some(q) ==> moments(window@, window@.last().time).solved_by(
                q.num0 as int,
                q.num1 as int,
                q.num2 as int,
                q.den as int,
            ),
    {
        let latest: u64 = window[LR_SIZE - 1].time;
        let mut m0: i128 = 0;
        let mut m1: i128 = 0;
        let mut m2: i128 = 0;
        let mut m3: i128 = 0;
        let mut m4: i128 = 0;
        let mut r0: i128 = 0;
        let mut r1: i128 = 0;
        let mut r2: i128 = 0;
        let mut k: usize = 0;
        while k < LR_SIZE
            invariant
                k <= LR_SIZE,
                window@.len() == LR_SIZE,
                latest == window@.last().time,
                intervals_sum(window@) <= MAX_LR_SPAN_MS,
                moments(window@.take(k as int), latest) == (Moments {
                    m0: m0 as int,
                    m1: m1 as int,
                    m2: m2 as int,
                    m3: m3 as int,
                    m4: m4 as int,
                    r0: r0 as int,
                    r1: r1 as int,
                    r2: r2 as int,
                }),
                m0 == k,
                -72 * k <= m1 <= 72 * k,
                -5184 * k <= m2 <= 5184 * k,
                -373248 * k <= m3 <= 373248 * k,
                -26873856 * k <= m4 <= 26873856 * k,
                -0x1_0000_0000_0000_0000int * k <= r0 <= 0x1_0000_0000_0000_0000int * k,
                -0x48_0000_0000_0000_0000int * k <= r1 <= 0x48_0000_0000_0000_0000int * k,
                -0x1440_0000_0000_0000_0000int * k <= r2 <= 0x1440_0000_0000_0000_0000int * k,
            decreases LR_SIZE - k,
        {
            let before: u64 = millis_between(window[k].time, latest);
            proof {
                lemma_elapsed_within_span(window@, k as int);
                assert(window@.take(k as int + 1).drop_last() == window@.take(k as int));
            }
            let u: i128 = -(before as i128);
            let y: i128 = window[k].gap as i128;
            let uu: i128 = mul_within(u, u, Ghost(72), Ghost(72));
            let uuu: i128 = mul_within(uu, u, Ghost(5184), Ghost(72));
            let uuuu: i128 = mul_within(uuu, u, Ghost(373248), Ghost(72));
            let uy: i128 = mul_within(u, y, Ghost(72), Ghost(0x1_0000_0000_0000_0000));
            let uuy: i128 = mul_within(uu, y, Ghost(5184), Ghost(0x1_0000_0000_0000_0000));
            m0 = m0 + 1;
            m1 = m1 + u;
            m2 = m2 + uu;
            m3 = m3 + uuu;
            m4 = m4 + uuuu;
            r0 = r0 + y;
            r1 = r1 + uy;
            r2 = r2 + uuy;
            k = k + 1;
        }
        proof {
            assert(window@.take(LR_SIZE as int) == window@);
            lemma_solution_solves_normal_equations(moments(window@, latest));
        }
        let ghost y = 0x1_0000_0000_0000_0000int;
        let c00: i128 = mul_within(m2, m4, Ghost(25920), Ghost(134369280)) - mul_within(
            m3,
            m3,
            Ghost(1866240),
            Ghost(1866240),
        );
        let c01: i128 = mul_within(m2, m3, Ghost(25920), Ghost(1866240)) - mul_within(
            m1,
            m4,
            Ghost(360),
            Ghost(134369280),
        );
        let c02: i128 = mul_within(m1, m3, Ghost(360), Ghost(1866240)) - mul_within(
            m2,
            m2,
            Ghost(25920),
            Ghost(25920),
        );
        let c11: i128 = mul_within(m0, m4, Ghost(5), Ghost(134369280)) - mul_within(
            m2,
            m2,
            Ghost(25920),
            Ghost(25920),
        );
        let c12: i128 = mul_within(m1, m2, Ghost(360), Ghost(25920)) - mul_within(
            m0,
            m3,
            Ghost(5),
            Ghost(1866240),
        );
        let c22: i128 = mul_within(m0, m2, Ghost(5), Ghost(25920)) - mul_within(
            m1,
            m1,
            Ghost(360),
            Ghost(360),
        );
        let d: i128 = mul_within(m0, c00, Ghost(5), Ghost(6965703475200)) + mul_within(
            m1,
            c01,
            Ghost(360),
            Ghost(96745881600),
        ) + mul_within(m2, c02, Ghost(25920), Ghost(1343692800));
        let n0: i128 = mul_within(c00, r0, Ghost(6965703475200), Ghost(5 * y)) + mul_within(
            c01,
            r1,
            Ghost(96745881600),
            Ghost(360 * y),
        ) + mul_within(c02, r2, Ghost(1343692800), Ghost(25920 * y));
        let n1: i128 = mul_within(c01, r0, Ghost(96745881600), Ghost(5 * y)) + mul_within(
            c11,
            r1,
            Ghost(1343692800),
            Ghost(360 * y),
        ) + mul_within(c12, r2, Ghost(18662400), Ghost(25920 * y));
        let n2: i128 = mul_within(c02, r0, Ghost(1343692800), Ghost(5 * y)) + mul_within(
            c12,
            r1,
            Ghost(18662400),
            Ghost(360 * y),
        ) + mul_within(c22, r2, Ghost(259200), Ghost(25920 * y));
        if d == 0 {
            None
        } else if d > 0 {
            Some(Quadratic { num0: n0, num1: n1, num2: n2, den: d })
        } else {
            Some(Quadratic { num0: -n0, num1: -n1, num2: -n2, den: -d })
        }
    }
}

impl BrainPredictor for QuadraticRegression {
    open spec fn prediction(
        &self,
        distances: Seq<Result<u64, OCTError>>,
        times: Seq<u64>,
        now: u64,
    ) -> Option<Quadratic> {
        regression_prediction(distances, times, now)
    }

    fn predict(&self, distances: &Vec<Result<u64, OCTError>>, times: &Vec<u64>, now: u64) -> (r:
        Option<Quadratic>) {
        match Self::passes_predict_assumptions(distances, times, now) {
            Ok(window) => Self::regress(&window),
            Err(_) => None,
        }
    }

    fn train(&self) -> (ready: bool) {
        true
    }
}

/// A prediction is a function of the history alone: the time at which the
/// predictor is consulted decides whether it answers, never what it answers.
/// Consulted twice on one history, it returns the same coefficients.
pub proof fn lemma_regression_prediction_is_repeatable(
    distances: Seq<Result<u64, OCTError>>,
    times: Seq<u64>,
    first_time: u64,
    second_time: u64,
)
    ensures
        regression_prediction(distances, times, first_time) is Some && regression_prediction(
            distances,
            times,
            second_time,
        ) is Some ==> regression_prediction(distances, times, first_time)
            == regression_prediction(distances, times, second_time),
{
}

} // verus!
