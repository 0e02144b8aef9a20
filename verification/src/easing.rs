//! Easing curves: how a value travels from where a run began to its target.
//!
//! A curve is asked for the value at `elapsed` out of `total` time units, with
//! `elapsed < total`. The driver never asks at or beyond the end of a run: there
//! it publishes the target itself.

use vstd::prelude::*;
use vstd::arithmetic::div_mod::{lemma_div_is_ordered, lemma_div_multiples_vanish, lemma_div_pos_is_pos};
use vstd::arithmetic::mul::{lemma_mul_inequality, lemma_mul_is_commutative, lemma_mul_nonnegative};

verus! {

/// A curve over values of type `V`.
///
/// `eased` is the curve as a mathematical function; `ease` computes it. An
/// implementation must return for every `elapsed < total`.
pub trait Easing<V> {
    /// The value of the curve `elapsed` into a run of length `total` that began
    /// at `start` and heads for `end`.
    spec fn eased(&self, elapsed: u64, total: u64, start: V, end: V) -> V;

    /// Computes `eased`.
    fn ease(&self, elapsed: u64, total: u64, start: V, end: V) -> (value: V)
        requires
            elapsed < total,
        ensures
            value == self.eased(elapsed, total, start, end),
    ;
}

/// The part of `span` covered after `elapsed` of `total`, rounded down.
pub open spec fn travelled(span: int, elapsed: int, total: int) -> int {
    (span * elapsed) / total
}

/// The straight line from `start` to `end`, sampled at `elapsed` of `total`.
/// What has been travelled is rounded towards `start`, in either direction.
pub open spec fn linear_value(elapsed: int, total: int, start: int, end: int) -> int {
    if end >= start {
        start + travelled(end - start, elapsed, total)
    } else {
        start - travelled(start - end, elapsed, total)
    }
}

/// The distance between two values.
pub open spec fn distance(a: int, b: int) -> int {
    if a >= b {
        a - b
    } else {
        b - a
    }
}

/// Whether `value` lies between `a` and `b`, both included, whichever is the
/// larger.
pub open spec fn within(a: int, b: int, value: int) -> bool {
    (a <= value <= b) || (b <= value <= a)
}

/// Whether a curve over integers never moves away from the target as time
/// goes on within a run.
pub open spec fn approaches_target<E: Easing<i64>>(easing: E) -> bool {
    forall|earlier: u64, later: u64, total: u64, start: i64, end: i64|
        #![trigger easing.eased(earlier, total, start, end), easing.eased(later, total, start, end)]
        earlier <= later < total ==> distance(
            end as int,
            easing.eased(later, total, start, end) as int,
        ) <= distance(end as int, easing.eased(earlier, total, start, end) as int)
}

/// Whether a curve over integers keeps every sample between the value a run
/// began at and its target, both included.
pub open spec fn stays_between<E: Easing<i64>>(easing: E) -> bool {
    forall|elapsed: u64, total: u64, start: i64, end: i64|
        #![trigger easing.eased(elapsed, total, start, end)]
        elapsed < total ==> within(
            start as int,
            end as int,
            easing.eased(elapsed, total, start, end) as int,
        )
}

proof fn lemma_travelled_bounds(span: int, elapsed: int, total: int)
    requires
        0 <= span,
        0 <= elapsed <= total,
        0 < total,
    ensures
        0 <= travelled(span, elapsed, total) <= span,
{
    lemma_mul_nonnegative(span, elapsed);
    lemma_div_pos_is_pos(span * elapsed, total);
    lemma_mul_inequality(elapsed, total, span);
    lemma_mul_is_commutative(span, elapsed);
    lemma_mul_is_commutative(span, total);
    lemma_div_is_ordered(span * elapsed, span * total, total);
    lemma_div_multiples_vanish(span, total);
    lemma_mul_is_commutative(total, span);
}

proof fn lemma_travelled_monotonic(span: int, earlier: int, later: int, total: int)
    requires
        0 <= span,
        0 <= earlier <= later,
        0 < total,
    ensures
        travelled(span, earlier, total) <= travelled(span, later, total),
{
    lemma_mul_inequality(earlier, later, span);
    lemma_mul_is_commutative(span, earlier);
    lemma_mul_is_commutative(span, later);
    lemma_div_is_ordered(span * earlier, span * later, total);
}

/// The product of two 64-bit magnitudes fits in 128 bits.
proof fn lemma_product_fits(span: int, elapsed: int)
    requires
        0 <= span <= u64::MAX,
        0 <= elapsed <= u64::MAX,
    ensures
        0 <= span * elapsed <= u128::MAX,
{
    lemma_mul_nonnegative(span, elapsed);
    lemma_mul_inequality(span, u64::MAX as int, elapsed);
    lemma_mul_inequality(elapsed, u64::MAX as int, u64::MAX as int);
    lemma_mul_is_commutative(elapsed, u64::MAX as int);
    assert((u64::MAX as int) * (u64::MAX as int) <= u128::MAX) by (nonlinear_arith);
}

/// A linear sample lies between the value the run began at and the target.
pub proof fn linear_stays_between(elapsed: int, total: int, start: int, end: int)
    requires
        0 <= elapsed <= total,
        0 < total,
    ensures
        start <= end ==> start <= linear_value(elapsed, total, start, end) <= end,
        end <= start ==> end <= linear_value(elapsed, total, start, end) <= start,
{
    if end >= start {
        lemma_travelled_bounds(end - start, elapsed, total);
    } else {
        lemma_travelled_bounds(start - end, elapsed, total);
    }
}

/// A linear run begins where it was started and, were it sampled at its very
/// end, would stand on the target.
pub proof fn linear_endpoints(total: int, start: int, end: int)
    requires
        0 < total,
    ensures
        linear_value(0, total, start, end) == start,
        linear_value(total, total, start, end) == end,
{
    let span = distance(start, end);
    assert(span * 0 == 0) by (nonlinear_arith);
    assert(0int / total == 0) by (nonlinear_arith)
        requires
            0 < total,
    ;
    lemma_div_multiples_vanish(span, total);
    lemma_mul_is_commutative(total, span);
}

/// Along a linear run the distance to the target never grows with time.
pub proof fn linear_distance_shrinks(earlier: int, later: int, total: int, start: int, end: int)
    requires
        0 <= earlier <= later <= total,
        0 < total,
    ensures
        distance(end, linear_value(later, total, start, end)) <= distance(
            end,
            linear_value(earlier, total, start, end),
        ),
{
    let span = distance(start, end);
    lemma_travelled_bounds(span, earlier, total);
    lemma_travelled_bounds(span, later, total);
    lemma_travelled_monotonic(span, earlier, later, total);
}

/// The straight line: the default curve, over whole numbers.
#[derive(Debug, Clone, Copy)]
pub struct Linear;

impl Easing<i64> for Linear {
    open spec fn eased(&self, elapsed: u64, total: u64, start: i64, end: i64) -> i64 {
        linear_value(elapsed as int, total as int, start as int, end as int) as i64
    }

    fn ease(&self, elapsed: u64, total: u64, start: i64, end: i64) -> (value: i64) {
        proof {
            linear_stays_between(elapsed as int, total as int, start as int, end as int);
        }
        if end >= start {
            let span: u128 = (end as i128 - start as i128) as u128;
            proof {
                lemma_travelled_bounds(span as int, elapsed as int, total as int);
                lemma_product_fits(span as int, elapsed as int);
            }
            let covered: u128 = span * (elapsed as u128) / (total as u128);
            (start as i128 + covered as i128) as i64
        } else {
            let span: u128 = (start as i128 - end as i128) as u128;
            proof {
                lemma_travelled_bounds(span as int, elapsed as int, total as int);
                lemma_product_fits(span as int, elapsed as int);
            }
            let covered: u128 = span * (elapsed as u128) / (total as u128);
            (start as i128 - covered as i128) as i64
        }
    }
}

/// The straight line never moves away from the target.
pub proof fn linear_approaches_target()
    ensures
        approaches_target(Linear),
{
    assert forall|earlier: u64, later: u64, total: u64, start: i64, end: i64|
        earlier <= later < total implies distance(
        end as int,
        Linear.eased(later, total, start, end) as int,
    ) <= distance(end as int, Linear.eased(earlier, total, start, end) as int) by {
        linear_stays_between(earlier as int, total as int, start as int, end as int);
        linear_stays_between(later as int, total as int, start as int, end as int);
        linear_distance_shrinks(earlier as int, later as int, total as int, start as int, end as int);
    }
}

/// The straight line stays between where a run began and its target.
pub proof fn linear_is_bounded()
    ensures
        stays_between(Linear),
{
    assert forall|elapsed: u64, total: u64, start: i64, end: i64| elapsed < total implies within(
        start as int,
        end as int,
        #[trigger] Linear.eased(elapsed, total, start, end) as int,
    ) by {
        linear_stays_between(elapsed as int, total as int, start as int, end as int);
    }
}

} // verus!
