//! The concrete scalar representation and the arithmetic facts shared by
//! every geometric type: range predicates, truncating division and
//! remainder, midpoint interpolation.

use vstd::prelude::*;
use vstd::math::abs;

verus! {

/// True when a mathematical integer is representable as an `i64`.
pub open spec fn fits(x: int) -> bool {
    i64::MIN <= x <= i64::MAX
}

/// Quotient of truncating (round-toward-zero) division, the semantics of
/// `/` on machine integers.
pub open spec fn div_trunc(a: int, b: int) -> int {
    let q = (abs(a) / abs(b)) as int;
    if (a < 0) != (b < 0) {
        -q
    } else {
        q
    }
}

/// Remainder of truncating division: its sign follows the dividend, the
/// semantics of `%` on machine integers.
pub open spec fn rem_trunc(a: int, b: int) -> int {
    let m = (abs(a) % abs(b)) as int;
    if a < 0 {
        -m
    } else {
        m
    }
}

/// Truncating division on the scalar representation, defined for every
/// pair except a zero divisor and the one overflowing pair.
pub fn div_i64(a: i64, b: i64) -> (r: i64)
    requires
        b != 0,
        !(a == i64::MIN && b == -1),
    ensures
        r == div_trunc(a as int, b as int),
{
    let aw: i128 = a as i128;
    let bw: i128 = b as i128;
    let an: i128 = if aw < 0 {
        -aw
    } else {
        aw
    };
    let bn: i128 = if bw < 0 {
        -bw
    } else {
        bw
    };
    let q: i128 = an / bn;
    proof {
        assert(an == abs(a as int));
        assert(bn == abs(b as int));
        assert(q <= an) by (nonlinear_arith)
            requires
                an >= 0,
                bn >= 1,
                q == an / bn,
        ;
        assert(q >= 0) by (nonlinear_arith)
            requires
                an >= 0,
                bn >= 1,
                q == an / bn,
        ;
        if a == i64::MIN {
            assert(bn >= 2 || b == 1);
            if bn >= 2 {
                assert(q <= an / 2) by (nonlinear_arith)
                    requires
                        an >= 0,
                        bn >= 2,
                        q == an / bn,
                ;
            }
        }
    }
    let s: i128 = if (a < 0) != (b < 0) {
        -q
    } else {
        q
    };
    s as i64
}

/// Truncating remainder on the scalar representation, defined for every
/// pair except a zero divisor and the one overflowing pair.
pub fn rem_i64(a: i64, b: i64) -> (r: i64)
    requires
        b != 0,
        !(a == i64::MIN && b == -1),
    ensures
        r == rem_trunc(a as int, b as int),
{
    let aw: i128 = a as i128;
    let bw: i128 = b as i128;
    let an: i128 = if aw < 0 {
        -aw
    } else {
        aw
    };
    let bn: i128 = if bw < 0 {
        -bw
    } else {
        bw
    };
    let m: i128 = an % bn;
    proof {
        assert(an == abs(a as int));
        assert(bn == abs(b as int));
        assert(0 <= m < bn);
    }
    let s: i128 = if a < 0 {
        -m
    } else {
        m
    };
    s as i64
}

/// The smaller of two scalars.
pub fn min_i64(a: i64, b: i64) -> (r: i64)
    ensures
        r == vstd::math::min(a as int, b as int),
{
    if a < b {
        a
    } else {
        b
    }
}

/// The larger of two scalars.
pub fn max_i64(a: i64, b: i64) -> (r: i64)
    ensures
        r == vstd::math::max(a as int, b as int),
{
    if a > b {
        a
    } else {
        b
    }
}

/// Midpoint of `a` and `b`, computed as `a + (b - a) / 2` so that no
/// intermediate value overflows when the operands are far apart but their
/// distance is representable.
pub fn lerp_half(a: i64, b: i64) -> (r: i64)
    requires
        fits(b - a),
    ensures
        r == a + div_trunc(b - a, 2),
{
    let d: i64 = b - a;
    let h: i64 = d / 2;
    a + h
}

} // verus!
