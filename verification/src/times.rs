//! Tick arithmetic: saturating addition and subtraction for timestamps, and
//! Euclidean remainder for loop phase computation.

use vstd::prelude::*;
use vstd::arithmetic::div_mod::{lemma_fundamental_div_mod, lemma_mod_bound};

verus! {

/// The sum of two ticks, clamped into the representable range.
pub open spec fn spec_sat(x: int) -> int {
    if x > i64::MAX as int {
        i64::MAX as int
    } else if x < i64::MIN as int {
        i64::MIN as int
    } else {
        x
    }
}

/// Saturating tick addition.
pub fn sat_add(a: i64, b: i64) -> (r: i64)
    ensures
        r as int == spec_sat(a as int + b as int),
{
    match a.checked_add(b) {
        Some(v) => v,
        None => {
            if b > 0 {
                i64::MAX
            } else {
                i64::MIN
            }
        },
    }
}

/// Saturating tick subtraction.
pub fn sat_sub(a: i64, b: i64) -> (r: i64)
    ensures
        r as int == spec_sat(a as int - b as int),
{
    match a.checked_sub(b) {
        Some(v) => v,
        None => {
            if b < 0 {
                i64::MAX
            } else {
                i64::MIN
            }
        },
    }
}

/// Euclidean remainder of `a` by a positive duration `d`; always in `[0, d)`,
/// also for negative `a`.
pub fn rem_euclid(a: i64, d: i64) -> (r: i64)
    requires
        d > 0,
    ensures
        r as int == a as int % d as int,
        0 <= r < d,
{
    proof {
        lemma_mod_bound(a as int, d as int);
    }
    match a.checked_rem_euclid(d) {
        Some(r) => r,
        None => 0,
    }
}

/// The start tick of the repeat of period `d` that `a` falls in:
/// `d * floor(a / d)`, equal to `a - a % d`, clamped into the representable
/// range.
pub fn period_start(a: i64, d: i64) -> (r: i64)
    requires
        d > 0,
    ensures
        r as int == spec_sat(a as int - a as int % d as int),
        i64::MIN as int <= a as int - a as int % d as int ==> r as int == d as int * (
        a as int / d as int),
{
    proof {
        lemma_fundamental_div_mod(a as int, d as int);
        lemma_mod_bound(a as int, d as int);
    }
    let m = rem_euclid(a, d);
    sat_sub(a, m)
}

/// Two ticks lie in the same repeat of period `d` exactly when their floor
/// quotients by `d` agree; the engine tests it by comparing period starts.
pub proof fn lemma_same_period(a: int, b: int, d: int)
    requires
        d > 0,
    ensures
        (d * (a / d) == d * (b / d)) <==> (a / d == b / d),
        (a - a % d == b - b % d) <==> (a / d == b / d),
{
    lemma_fundamental_div_mod(a, d);
    lemma_fundamental_div_mod(b, d);
    if d * (a / d) == d * (b / d) {
        assert((a / d - b / d) * d == 0) by (nonlinear_arith)
            requires
                d * (a / d) == d * (b / d),
        ;
        assert(a / d == b / d) by (nonlinear_arith)
            requires
                (a / d - b / d) * d == 0,
                d > 0,
        ;
    }
}

} // verus!
