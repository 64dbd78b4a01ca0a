//! Whole-number division that rounds towards minus infinity.

use vstd::prelude::*;

verus! {

/// The quotient of `n` by a positive `d`, rounded towards minus infinity,
/// and what is left over, which is never negative.
pub fn floor_div_rem(n: i128, d: i128) -> (result: (i128, i128))
    requires
        0 < d,
        i128::MIN < n,
    ensures
        result.0 == n / d,
        result.1 == n % d,
        0 <= result.1 < d,
        n == d * result.0 + result.1,
{
    proof {
        vstd::arithmetic::div_mod::lemma_fundamental_div_mod(n as int, d as int);
        vstd::arithmetic::div_mod::lemma_mod_bound(n as int, d as int);
    }
    if n >= 0 {
        (n / d, n % d)
    } else {
        let p: i128 = -n;
        let whole: i128 = p / d;
        let rest: i128 = p % d;
        proof {
            vstd::arithmetic::div_mod::lemma_fundamental_div_mod(p as int, d as int);
            vstd::arithmetic::div_mod::lemma_mod_bound(p as int, d as int);
            let w = whole as int;
            let r = rest as int;
            if r == 0 {
                assert(n == (-w) * d + 0) by (nonlinear_arith)
                    requires
                        -n == d * w + 0,
                ;
                vstd::arithmetic::div_mod::lemma_fundamental_div_mod_converse(
                    n as int,
                    d as int,
                    -w,
                    0,
                );
            } else {
                assert(n == (-w - 1) * d + (d - r)) by (nonlinear_arith)
                    requires
                        -n == d * w + r,
                ;
                vstd::arithmetic::div_mod::lemma_fundamental_div_mod_converse(
                    n as int,
                    d as int,
                    -w - 1,
                    d - r,
                );
            }
            assert(0 <= w <= p) by (nonlinear_arith)
                requires
                    p == d * w + r,
                    0 <= r < d,
                    0 <= p,
            ;
        }
        if rest == 0 {
            (-whole, 0)
        } else {
            (-whole - 1, d - rest)
        }
    }
}

/// The quotient of `n` by a positive `d`, rounded towards minus infinity.
pub fn floor_div(n: i128, d: i128) -> (q: i128)
    requires
        0 < d,
        i128::MIN < n,
    ensures
        q == n / d,
{
    floor_div_rem(n, d).0
}

} // verus!
