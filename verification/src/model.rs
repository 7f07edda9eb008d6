//! The mathematics that the contracts of this crate are stated in: integer
//! ranges, reduction into a range, division rounded toward zero.

use vstd::prelude::*;

verus! {

/// The member of the range `lo ..= hi` that differs from `i` by a multiple
/// of the number of integers in the range.
pub open spec fn wrap_into(i: int, lo: int, hi: int) -> int
    recommends
        lo <= hi,
{
    lo + (i - lo) % (hi - lo + 1)
}

/// The quotient of `a` by `b`, rounded toward zero.
pub open spec fn truncated_quotient(a: int, b: int) -> int
    recommends
        b != 0,
{
    if a >= 0 {
        if b > 0 {
            a / b
        } else {
            -(a / (-b))
        }
    } else {
        if b > 0 {
            -((-a) / b)
        } else {
            (-a) / (-b)
        }
    }
}

/// An integer inside a range is its own reduction into that range.
pub proof fn lemma_wrap_into_identity(i: int, lo: int, hi: int)
    requires
        lo <= i <= hi,
    ensures
        wrap_into(i, lo, hi) == i,
{
    vstd::arithmetic::div_mod::lemma_small_mod((i - lo) as nat, (hi - lo + 1) as nat);
}

/// A member of the range that differs from `i` by a multiple of the number
/// of integers in the range is the reduction of `i` into the range.
pub proof fn lemma_wrap_into_congruent(i: int, lo: int, hi: int, r: int)
    requires
        lo <= r <= hi,
        (i - r) % (hi - lo + 1) == 0,
    ensures
        wrap_into(i, lo, hi) == r,
{
    let n = hi - lo + 1;
    let k = (i - r) / n;
    vstd::arithmetic::div_mod::lemma_fundamental_div_mod(i - r, n);
    assert(i - lo == k * n + (r - lo)) by (nonlinear_arith)
        requires
            i - r == n * k + 0,
    ;
    vstd::arithmetic::div_mod::lemma_fundamental_div_mod_converse(i - lo, n, k, r - lo);
}

/// Rounding toward zero never moves a quotient further from zero than the
/// dividend; the quotient of a negative dividend reaches the dividend's
/// negation for the divisor -1 alone; and for a dividend that is not negative
/// and a positive divisor the quotient is the one rounded down.
pub proof fn lemma_truncated_quotient_bounds(a: int, b: int)
    requires
        b != 0,
    ensures
        a >= 0 ==> -a <= truncated_quotient(a, b) <= a,
        a < 0 ==> a <= truncated_quotient(a, b) <= -a,
        a < 0 && b != -1 ==> truncated_quotient(a, b) < -a,
        b == -1 ==> truncated_quotient(a, b) == -a,
        a >= 0 && b > 0 ==> truncated_quotient(a, b) == a / b && a / b >= 0,
{
    let x = if a >= 0 {
        a
    } else {
        -a
    };
    let d = if b > 0 {
        b
    } else {
        -b
    };
    vstd::arithmetic::div_mod::lemma_div_pos_is_pos(x, d);
    vstd::arithmetic::div_mod::lemma_div_nonincreasing(x, d);
    if x > 0 && d > 1 {
        vstd::arithmetic::div_mod::lemma_div_decreases(x, d);
    }
    vstd::arithmetic::div_mod::lemma_div_basics(x);
}

} // verus!
