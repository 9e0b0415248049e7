//! Cell arithmetic that wraps around, as the two's complement machine does.

use vstd::prelude::*;

verus! {

/// Division rounding toward zero.
pub open spec fn trunc_div(n: int, t: int) -> int {
    let q = abs_int(n) / abs_int(t);
    if (n < 0) == (t < 0) {
        q
    } else {
        -q
    }
}

/// The remainder of division rounding toward zero; it has the sign of `n`.
pub open spec fn trunc_rem(n: int, t: int) -> int {
    n - t * trunc_div(n, t)
}

pub open spec fn abs_int(n: int) -> int {
    if n < 0 {
        -n
    } else {
        n
    }
}

/// Quotient of `n / t`, rounded toward zero; `isize::MIN / -1` wraps to
/// `isize::MIN`.
pub fn wrapping_div(n: isize, t: isize) -> (r: isize)
    requires
        t != 0,
    ensures
        !(n == isize::MIN && t == -1) ==> r as int == trunc_div(n as int, t as int),
        n == isize::MIN && t == -1 ==> r == isize::MIN,
{
    if n == isize::MIN && t == -1 {
        isize::MIN
    } else {
        let a: i128 = if n < 0 {
            -(n as i128)
        } else {
            n as i128
        };
        let b: i128 = if t < 0 {
            -(t as i128)
        } else {
            t as i128
        };
        let q: i128 = a / b;
        assert(q == abs_int(n as int) / abs_int(t as int));
        proof {
            vstd::arithmetic::div_mod::lemma_div_nonincreasing(abs_int(n as int), abs_int(t as int));
            vstd::arithmetic::div_mod::lemma_div_pos_is_pos(abs_int(n as int), abs_int(t as int));
            if abs_int(t as int) >= 2 {
                vstd::arithmetic::div_mod::lemma_div_is_ordered_by_denominator(
                    abs_int(n as int),
                    2,
                    abs_int(t as int),
                );
            }
        }
        let r: i128 = if (n < 0) == (t < 0) {
            q
        } else {
            -q
        };
        assert(isize::MIN <= r <= isize::MAX);
        r as isize
    }
}

/// Remainder of `n / t`, rounded toward zero; `isize::MIN % -1` is 0.
pub fn wrapping_rem(n: isize, t: isize) -> (r: isize)
    requires
        t != 0,
    ensures
        r as int == trunc_rem(n as int, t as int),
{
    if t == -1 {
        assert(trunc_div(n as int, -1) == -(n as int));
        0
    } else {
        let q = wrapping_div(n, t);
        proof {
            vstd::arithmetic::div_mod::lemma_fundamental_div_mod(
                abs_int(n as int),
                abs_int(t as int),
            );
            vstd::arithmetic::div_mod::lemma_mod_bound(abs_int(n as int), abs_int(t as int));
        }
        let ghost an = abs_int(n as int);
        let ghost at = abs_int(t as int);
        let ghost aq = an / at;
        assert(at * aq <= an) by (nonlinear_arith)
            requires
                an == at * aq + an % at,
                0 <= an % at,
        ;
        assert(abs_int(t * trunc_div(n as int, t as int)) == at * aq) by (nonlinear_arith)
            requires
                trunc_div(n as int, t as int) == (if (n < 0) == (t < 0) { aq } else { -aq }),
                at == (if t < 0 { -(t as int) } else { t as int }),
                aq >= 0,
                abs_int(t * trunc_div(n as int, t as int)) == (if t * trunc_div(n as int, t as int) < 0 {
                    -(t * trunc_div(n as int, t as int))
                } else {
                    t * trunc_div(n as int, t as int)
                }),
        ;
        let p: i128 = (t as i128) * (q as i128);
        let r: i128 = (n as i128) - p;
        assert(abs_int(r as int) < at) by (nonlinear_arith)
            requires
                r == n - t * trunc_div(n as int, t as int),
                an == at * aq + an % at,
                0 <= an % at < at,
                trunc_div(n as int, t as int) == (if (n < 0) == (t < 0) { aq } else { -aq }),
                an == (if n < 0 { -(n as int) } else { n as int }),
                at == (if t < 0 { -(t as int) } else { t as int }),
        ;
        r as isize
    }
}

/// The absolute value of `n`; `isize::MIN` stays `isize::MIN`.
pub fn wrapping_abs(n: isize) -> (r: isize)
    ensures
        n != isize::MIN ==> r as int == abs_int(n as int),
        n == isize::MIN ==> r == isize::MIN,
{
    if n == isize::MIN {
        n
    } else if n < 0 {
        -n
    } else {
        n
    }
}

/// `-n`; `isize::MIN` stays `isize::MIN`.
pub fn wrapping_neg(n: isize) -> (r: isize)
    ensures
        n != isize::MIN ==> r as int == -(n as int),
        n == isize::MIN ==> r == isize::MIN,
{
    if n == isize::MIN {
        n
    } else {
        -n
    }
}

} // verus!
