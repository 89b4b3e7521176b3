//! Integer helpers that describe Rust's machine arithmetic exactly:
//! two's complement casts between `u32` and `i32`, truncating division by two,
//! `clamp`, `min` and `abs`.
use vstd::prelude::*;

verus! {

/// True when `v` fits in an `i32`.
pub open spec fn in_i32(v: int) -> bool {
    i32::MIN <= v <= i32::MAX
}

/// The value of `w as i32`: the bits of `w` read as two's complement.
pub open spec fn signed(w: u32) -> int {
    if w <= i32::MAX {
        w as int
    } else {
        w as int - 0x1_0000_0000
    }
}

/// The value of `v as u32` for an `i32` value `v`.
pub open spec fn unsigned(v: int) -> int {
    if v >= 0 {
        v
    } else {
        v + 0x1_0000_0000
    }
}

/// Division by two rounding toward zero, as Rust's `/` does on signed integers.
pub open spec fn half(v: int) -> int {
    if v >= 0 {
        v / 2
    } else {
        -((-v) / 2)
    }
}

/// `v.clamp(lo, hi)` for `lo <= hi`.
pub open spec fn clamp(v: int, lo: int, hi: int) -> int {
    if v < lo {
        lo
    } else if v > hi {
        hi
    } else {
        v
    }
}

pub open spec fn min(a: int, b: int) -> int {
    if a <= b {
        a
    } else {
        b
    }
}

pub open spec fn abs(v: int) -> int {
    if v >= 0 {
        v
    } else {
        -v
    }
}

/// `w as i32`.
pub fn to_i32(w: u32) -> (r: i32)
    ensures
        r == signed(w),
{
    let r = w as i32;
    assert(r as i64 == if w <= 0x7fff_ffff {
        w as i64
    } else {
        ((w as i64) - 0x1_0000_0000i64) as i64
    }) by (bit_vector)
        requires
            r == w as i32,
    ;
    r
}

/// `v as u32`.
pub fn to_u32(v: i32) -> (r: u32)
    ensures
        r == unsigned(v as int),
{
    let r = v as u32;
    assert(r as i64 == if v >= 0 {
        v as i64
    } else {
        ((v as i64) + 0x1_0000_0000i64) as i64
    }) by (bit_vector)
        requires
            r == v as u32,
    ;
    r
}

/// `v.clamp(lo, hi)` on `i32`.
pub fn clamp_i32(v: i32, lo: i32, hi: i32) -> (r: i32)
    requires
        lo <= hi,
    ensures
        r == clamp(v as int, lo as int, hi as int),
{
    if v < lo {
        lo
    } else if v > hi {
        hi
    } else {
        v
    }
}

/// `v.clamp(0, hi)` on `u32`, which is the smaller of the two.
pub fn clamp_u32_from_zero(v: u32, hi: u32) -> (r: u32)
    ensures
        r == min(v as int, hi as int),
{
    if v > hi {
        hi
    } else {
        v
    }
}

/// `v.abs()` on `i32`.
pub fn abs_i32(v: i32) -> (r: i32)
    requires
        v != i32::MIN,
    ensures
        r == abs(v as int),
{
    if v < 0 {
        -v
    } else {
        v
    }
}

/// Integer square root: the largest `r` with `r * r <= n`.
pub open spec fn is_isqrt(n: int, r: int) -> bool {
    0 <= r && r * r <= n && n < (r + 1) * (r + 1)
}

/// `n.isqrt()` on a non-negative `i32`.
pub fn isqrt_i32(n: i32) -> (r: i32)
    requires
        n >= 0,
    ensures
        is_isqrt(n as int, r as int),
{
    // binary search over [lo, hi): lo*lo <= n < hi*hi
    let mut lo: i64 = 0;
    let mut hi: i64 = 46341;
    assert(46341 * 46341 > i32::MAX) by (nonlinear_arith);
    while hi - lo > 1
        invariant
            0 <= lo < hi <= 46341,
            lo * lo <= n,
            n < hi * hi,
        decreases hi - lo,
    {
        let mid = lo + (hi - lo) / 2;
        assert(0 <= mid * mid <= 46341 * 46341) by (nonlinear_arith)
            requires
                0 <= mid <= 46341,
        ;
        if mid * mid <= n as i64 {
            lo = mid;
        } else {
            hi = mid;
        }
    }
    assert(hi == lo + 1);
    lo as i32
}

} // verus!
