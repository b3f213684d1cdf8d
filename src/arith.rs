//! Integer division as the sensors' reference formulas use it: the quotient
//! is truncated toward zero, as Rust's `/` on signed integers does.

use vstd::prelude::*;

verus! {

pub open spec fn abs(x: int) -> int {
    if x < 0 {
        -x
    } else {
        x
    }
}

/// The quotient of `a` by a non-zero `b`, truncated toward zero.
pub open spec fn quot(a: int, b: int) -> int
    recommends
        b != 0,
{
    let q = abs(a) / abs(b);
    if (a < 0) != (b < 0) {
        -q
    } else {
        q
    }
}

/// `v` held to the closed range `[lo, hi]`.
pub open spec fn clamp(v: int, lo: int, hi: int) -> int
    recommends
        lo <= hi,
{
    if v < lo {
        lo
    } else if v > hi {
        hi
    } else {
        v
    }
}

/// A truncated quotient is no larger in magnitude than its dividend.
pub proof fn lemma_quot_bounded(a: int, b: int)
    requires
        b != 0,
    ensures
        abs(quot(a, b)) <= abs(a),
{
    let (x, y) = (abs(a), abs(b));
    assert(x / y <= x) by (nonlinear_arith)
        requires
            x >= 0,
            y >= 1,
    ;
    assert(x / y >= 0) by (nonlinear_arith)
        requires
            x >= 0,
            y >= 1,
    ;
}

/// Signed division truncated toward zero.
pub fn div_toward_zero(a: i32, b: i32) -> (r: i32)
    requires
        b != 0,
        !(a == i32::MIN && b == -1),
    ensures
        r == quot(a as int, b as int),
{
    proof {
        lemma_quot_bounded(a as int, b as int);
    }
    let ua: u32 = if a < 0 {
        (-(a as i64)) as u32
    } else {
        a as u32
    };
    let ub: u32 = if b < 0 {
        (-(b as i64)) as u32
    } else {
        b as u32
    };
    let q: u32 = ua / ub;
    proof {
        assert(q <= ua) by (nonlinear_arith)
            requires
                q == ua / ub,
                ub >= 1,
        ;
        if ub >= 2 {
            assert(q <= ua / 2) by (nonlinear_arith)
                requires
                    q == ua / ub,
                    ub >= 2,
            ;
        }
    }
    if (a < 0) != (b < 0) {
        (-(q as i64)) as i32
    } else {
        q as i32
    }
}

/// `v` held to the closed range `[lo, hi]`.
pub fn clamp_i32(v: i32, lo: i32, hi: i32) -> (r: i32)
    requires
        lo <= hi,
    ensures
        r == clamp(v as int, lo as int, hi as int),
{
    if v < lo {
        lo
    } else if v > hi {
        hi
    } else {
        v
    }
}

} // verus!
