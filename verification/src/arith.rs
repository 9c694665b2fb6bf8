//! Integer arithmetic on the fixed-point quantities of the game.
use vstd::prelude::*;

verus! {

/// Fixed-point scale of positions and paddle speeds: thousandths of a pixel
/// (per millisecond).
pub const SCALE: i64 = 1000;

/// Fixed-point scale of the ball's speeds: millionths of a pixel per
/// millisecond.
pub const MICRO: i64 = 1_000_000;

/// `a / b` rounded toward zero, as a float-to-integer cast does.
pub open spec fn trunc_div(a: int, b: int) -> int {
    if a >= 0 { a / b } else { -((-a) / b) }
}

/// `a / b` rounded to the nearest integer, halves away from zero.
pub open spec fn round_div(a: int, b: int) -> int {
    if a >= 0 { (a + b / 2) / b } else { -((-a + b / 2) / b) }
}

/// `v` held to the range of `i32`, as a saturating cast does.
pub open spec fn clamp_i32(v: int) -> int {
    if v < i32::MIN { i32::MIN as int } else if v > i32::MAX { i32::MAX as int } else { v }
}

/// The sign of `v`: -1, 0 or 1.
pub open spec fn sign(v: int) -> int {
    if v > 0 { 1 } else if v < 0 { -1 } else { 0 }
}

/// Largest `r` with `r * r <= n`.
pub open spec fn is_isqrt(n: int, r: int) -> bool {
    0 <= r && r * r <= n && n < (r + 1) * (r + 1)
}

/// `r` is the square root of `n` rounded to the nearest integer: `n` lies
/// within `r` of `r * r`, on the side that makes `r` the nearest.
pub open spec fn is_nearest_root(n: int, r: int) -> bool {
    0 <= r && n <= r * r + r && (r == 0 || r * r - r < n)
}

/// A number at most `b` away from zero has its square between zero and
/// `b * b`.
pub proof fn lemma_square_bound(v: int, b: int)
    requires
        -b <= v <= b,
    ensures
        0 <= v * v <= b * b,
{
    let a = if v >= 0 { v } else { -v };
    assert(v * v == a * a) by (nonlinear_arith)
        requires a == v || a == -v;
    vstd::arithmetic::mul::lemma_mul_upper_bound(a, b, a, b);
    vstd::arithmetic::mul::lemma_mul_nonnegative(a, a);
}

/// Integer square root, rounded down.
pub fn isqrt(n: u64) -> (r: u64)
    ensures
        is_isqrt(n as int, r as int),
{
    let mut lo: u128 = 0;
    let mut hi: u128 = 0x1_0000_0000;
    assert(0x1_0000_0000 * 0x1_0000_0000 > n) by (nonlinear_arith);
    while hi - lo > 1
        invariant
            lo < hi <= 0x1_0000_0000,
            lo * lo <= n,
            n < hi * hi,
        decreases hi - lo,
    {
        let mid = lo + (hi - lo) / 2;
        assert(mid * mid <= 0x1_0000_0000 * 0x1_0000_0000) by (nonlinear_arith)
            requires mid <= 0x1_0000_0000;
        if mid * mid <= n as u128 {
            lo = mid;
        } else {
            hi = mid;
        }
    }
    assert(hi == lo + 1);
    lo as u64
}

/// Integer square root, rounded to the nearest integer.
pub fn nearest_root(n: u64) -> (r: u64)
    ensures
        is_nearest_root(n as int, r as int),
        r <= 0x1_0000_0000,
{
    let s = isqrt(n);
    assert(s < 0x1_0000_0000) by (nonlinear_arith)
        requires s * s <= n, n <= u64::MAX;
    assert(s * s <= 0xffff_fffe_0000_0001) by (nonlinear_arith)
        requires s < 0x1_0000_0000;
    if n - s * s > s {
        assert((s + 1) * (s + 1) - (s + 1) == s * s + s) by (nonlinear_arith);
        assert((s + 1) * (s + 1) + (s + 1) == s * s + 3 * s + 2) by (nonlinear_arith);
        assert((s + 1) * (s + 1) == s * s + 2 * s + 1) by (nonlinear_arith);
        s + 1
    } else {
        assert(s == 0 || s * s - s < n) by (nonlinear_arith)
            requires s * s <= n, s >= 0;
        s
    }
}

/// `v * delta / unit` rounded toward zero (when `round` is false) or to the
/// nearest integer (when `round` is true), held to the range of `i32`: the
/// distance travelled in `delta` milliseconds at speed `v`, counted in units
/// `unit` times coarser than the speed's.
pub fn scaled_step(v: i64, delta: u128, round: bool, unit: u128) -> (r: i32)
    requires
        -0x1_0000_0000 <= v <= 0x1_0000_0000,
        1 <= unit <= 1_000_000,
    ensures
        r == clamp_i32(
            if round { round_div(v * delta, unit as int) } else { trunc_div(v * delta, unit as int) },
        ),
{
    let neg = v < 0;
    let mag: u128 = if neg { (-v) as u128 } else { v as u128 };
    let bound: u128 = 0x1_0000_0000 * unit;
    let m = mag.checked_mul(delta);
    let q: u128 = match m {
        None => 0x1_0000_0000,
        Some(p) => {
            if p > bound {
                0x1_0000_0000
            } else if round {
                (p + unit / 2) / unit
            } else {
                p / unit
            }
        },
    };
    proof {
        let pr = mag * delta;
        assert(v * delta == if neg { -pr } else { pr }) by (nonlinear_arith)
            requires mag == (if neg { -(v as int) } else { v as int }), pr == mag * delta;
        assert(((unit / 2) as int) / (unit as int) == 0) by (nonlinear_arith)
            requires unit >= 1;
        assert(0int / (unit as int) == 0) by (nonlinear_arith)
            requires unit >= 1;
        if m is None {
            assert(pr > u128::MAX);
        }
        if pr > bound {
            assert((pr + unit / 2) / (unit as int) >= 0x1_0000_0000) by (nonlinear_arith)
                requires pr > 0x1_0000_0000 * unit, unit >= 1;
            assert(pr / (unit as int) >= 0x1_0000_0000) by (nonlinear_arith)
                requires pr > 0x1_0000_0000 * unit, unit >= 1;
        } else {
            assert((pr + unit / 2) / (unit as int) <= 0x1_0000_0000 + 1) by (nonlinear_arith)
                requires pr <= 0x1_0000_0000 * unit, unit >= 1;
        }
    }
    if neg {
        if q > 0x8000_0000 { i32::MIN } else { (-(q as i64)) as i32 }
    } else {
        if q > 0x7fff_ffff { i32::MAX } else { q as i32 }
    }
}

} // verus!

verus! {

/// `-v` held to the range of `i32`.
pub fn neg_sat(v: i32) -> (r: i32)
    ensures
        r == clamp_i32(-v),
{
    if v == i32::MIN { i32::MAX } else { -v }
}

/// `v` held to the range of `i32`.
pub fn clamp_to_i32(v: i64) -> (r: i32)
    ensures
        r == clamp_i32(v as int),
{
    if v < i32::MIN as i64 {
        i32::MIN
    } else if v > i32::MAX as i64 {
        i32::MAX
    } else {
        v as i32
    }
}

/// The value of `v` reinterpreted as a signed 32-bit integer, as `as i32` does.
pub open spec fn wrap_i32(v: u32) -> int {
    if v <= i32::MAX { v as int } else { v - 0x1_0000_0000 }
}

/// `v as i32`, proved equal to its specification.
pub fn to_i32_wrapping(v: u32) -> (r: i32)
    ensures
        r == wrap_i32(v),
{
    if v <= 0x7fff_ffff {
        v as i32
    } else {
        (v as i64 - 0x1_0000_0000) as i32
    }
}

/// `a / SCALE` rounded toward zero, as a float-to-integer cast of a
/// coordinate does.
pub fn to_pixels(a: i32) -> (r: i32)
    ensures
        r == trunc_div(a as int, SCALE as int),
        -2147484 <= r <= 2147483,
{
    if a >= 0 {
        a / 1000
    } else {
        -((-(a as i64) / 1000) as i32)
    }
}

} // verus!
