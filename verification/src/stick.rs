//! Fixed-point 2D stick vectors.
//!
//! Analog sticks are carried in integer milli-units per axis: the value 1000
//! stands for a full deflection of 1.0, so the deadzone of 0.1 is the value
//! 100. Lengths are compared through squared magnitudes, and normalizing or
//! clamping a vector uses an integer square root, rounding each scaled
//! component toward zero.

use vstd::prelude::*;
use vstd::arithmetic::div_mod::{lemma_div_is_ordered, lemma_div_multiples_vanish,
    lemma_fundamental_div_mod, lemma_div_pos_is_pos};

verus! {

/// One full stick deflection (1.0) in milli-units.
pub const AXIS_UNIT: i32 = 1000;

/// The deadzone threshold (0.1) in milli-units.
pub const DEADZONE: i32 = 100;

/// The deadzone threshold, squared.
pub const DEADZONE_SQ: i64 = 10_000;

/// One full deflection, squared.
pub const UNIT_SQ: i64 = 1_000_000;

/// A 2D stick reading in milli-units per axis.
#[derive(Debug, Clone, Copy, PartialEq, Eq, Structural)]
pub struct StickVec {
    /// Horizontal axis; positive is right.
    pub x: i32,
    /// Vertical axis; positive is up.
    pub y: i32,
}

impl StickVec {
    /// Squared length of the vector.
    pub open spec fn mag_sq(self) -> int {
        self.x * self.x + self.y * self.y
    }

    /// Both components lie within one full deflection.
    pub open spec fn in_unit_box(self) -> bool {
        -1000 <= self.x <= 1000 && -1000 <= self.y <= 1000
    }

    /// The neutral stick position.
    pub fn zero() -> (r: Self)
        ensures
            r == (StickVec { x: 0, y: 0 }),
    {
        StickVec { x: 0, y: 0 }
    }

    /// Build a vector from its two components.
    pub fn new(x: i32, y: i32) -> (r: Self)
        ensures
            r == (StickVec { x, y }),
    {
        StickVec { x, y }
    }

    /// Compute the squared length.
    pub fn len_sq(&self) -> (r: i64)
        requires
            -1_000_000 <= self.x <= 1_000_000,
            -1_000_000 <= self.y <= 1_000_000,
        ensures
            r == self.mag_sq(),
            r >= 0,
    {
        proof {
            assert(self.x * self.x >= 0 && self.x * self.x <= 1_000_000_000_000) by (nonlinear_arith)
                requires -1_000_000 <= self.x <= 1_000_000;
            assert(self.y * self.y >= 0 && self.y * self.y <= 1_000_000_000_000) by (nonlinear_arith)
                requires -1_000_000 <= self.y <= 1_000_000;
        }
        (self.x as i64) * (self.x as i64) + (self.y as i64) * (self.y as i64)
    }
}

/// The integer square root: the greatest `r` with `r * r <= n` (0 for `n <= 0`).
pub open spec fn isqrt_spec(n: int) -> int
    decreases n,
{
    if n <= 0 {
        0
    } else {
        let r = isqrt_spec(n - 1);
        if (r + 1) * (r + 1) <= n {
            r + 1
        } else {
            r
        }
    }
}

/// The integer square root is bracketed by the two neighbouring squares.
pub proof fn lemma_isqrt_bounds(n: int)
    requires
        n >= 0,
    ensures
        isqrt_spec(n) >= 0,
        isqrt_spec(n) * isqrt_spec(n) <= n,
        n < (isqrt_spec(n) + 1) * (isqrt_spec(n) + 1),
    decreases n,
{
    if n == 0 {
    } else {
        lemma_isqrt_bounds(n - 1);
        let r = isqrt_spec(n - 1);
        if (r + 1) * (r + 1) <= n {
            assert((r + 1) * (r + 1) < (r + 2) * (r + 2)) by (nonlinear_arith)
                requires r >= 0;
        }
    }
}

/// Any value bracketed by the two neighbouring squares is the integer square root.
pub proof fn lemma_isqrt_unique(n: int, a: int)
    requires
        n >= 0,
        a >= 0,
        a * a <= n,
        n < (a + 1) * (a + 1),
    ensures
        a == isqrt_spec(n),
{
    lemma_isqrt_bounds(n);
    let b = isqrt_spec(n);
    if a < b {
        assert((a + 1) * (a + 1) <= b * b) by (nonlinear_arith)
            requires 0 <= a + 1 <= b;
    }
    if b < a {
        assert((b + 1) * (b + 1) <= a * a) by (nonlinear_arith)
            requires 0 <= b + 1 <= a;
    }
}

/// Compute the integer square root by counting up to the last square
/// that does not exceed `n`.
pub fn isqrt(n: u64) -> (r: u64)
    requires
        n <= 16_000_000,
    ensures
        r == isqrt_spec(n as int),
        r * r <= n < (r + 1) * (r + 1),
{
    let mut r: u64 = 0;
    while (r + 1) * (r + 1) <= n
        invariant
            n <= 16_000_000,
            r * r <= n,
            r <= 4000,
            (r + 1) * (r + 1) <= 16_008_001,
        decreases n - r * r,
    {
        proof {
            assert(r + 1 <= 4000) by (nonlinear_arith)
                requires (r + 1) * (r + 1) <= 16_000_000, r >= 0;
            assert((r + 2) * (r + 2) <= 16_008_001) by (nonlinear_arith)
                requires r + 1 <= 4000, r >= 0;
            assert(r * r < (r + 1) * (r + 1)) by (nonlinear_arith)
                requires r >= 0;
        }
        r = r + 1;
    }
    proof {
        lemma_isqrt_unique(n as int, r as int);
    }
    r
}

/// The least `r` with `r * r >= n`: the integer square root, rounded up.
pub open spec fn isqrt_ceil_spec(n: int) -> int {
    let f = isqrt_spec(n);
    if f * f < n {
        f + 1
    } else {
        f
    }
}

/// The rounded-up integer square root squares to at least `n`.
pub proof fn lemma_isqrt_ceil_bounds(n: int)
    requires
        n >= 0,
    ensures
        isqrt_ceil_spec(n) >= 0,
        isqrt_ceil_spec(n) * isqrt_ceil_spec(n) >= n,
        isqrt_spec(n) <= isqrt_ceil_spec(n) <= isqrt_spec(n) + 1,
{
    lemma_isqrt_bounds(n);
}

/// One axis scaled by `num / den`, rounding toward zero.
pub open spec fn scaled(c: int, num: int, den: int) -> int {
    if c >= 0 {
        (c * num) / den
    } else {
        -(((-c) * num) / den)
    }
}

/// Scale one axis by `1000 / den`, rounding toward zero. The result never
/// exceeds one full deflection because `|c|` never exceeds `den`.
fn scale_axis(c: i32, den: u64) -> (r: i32)
    requires
        1 <= den <= 4000,
        -(den as int) <= c <= den as int,
    ensures
        r == scaled(c as int, 1000, den as int),
        -1000 <= r <= 1000,
{
    let neg = c < 0;
    let a: u64 = if neg {
        (-(c as i64)) as u64
    } else {
        c as u64
    };
    proof {
        assert(a == (if c >= 0 { c as int } else { -(c as int) }));
        assert(a * 1000 <= den * 1000) by (nonlinear_arith)
            requires a <= den, 1000 >= 0;
        lemma_div_is_ordered((a * 1000) as int, (den * 1000) as int, den as int);
        lemma_div_multiples_vanish(1000, den as int);
        assert(den as int * 1000 == 1000 * den as int) by (nonlinear_arith);
        assert((a * 1000) as int / (den as int) <= 1000);
        lemma_div_pos_is_pos((a * 1000) as int, den as int);
    }
    let q: u64 = a * 1000 / den;
    let qi: i32 = q as i32;
    if neg {
        -qi
    } else {
        qi
    }
}

/// Scale a vector down to unit length (1000 milli-units), rounding each
/// component toward zero; the divisor is the integer square root of the
/// squared magnitude.
pub fn normalized(v: StickVec) -> (r: StickVec)
    requires
        v.in_unit_box(),
        v.mag_sq() > DEADZONE_SQ,
    ensures
        r.x == scaled(v.x as int, 1000, isqrt_spec(v.mag_sq())),
        r.y == scaled(v.y as int, 1000, isqrt_spec(v.mag_sq())),
        r.in_unit_box(),
{
    proof {
        assert(0 <= v.x * v.x <= 1_000_000 && 0 <= v.y * v.y <= 1_000_000) by (nonlinear_arith)
            requires -1000 <= v.x <= 1000, -1000 <= v.y <= 1000;
    }
    let n = v.len_sq();
    let len = isqrt(n as u64);
    proof {
        assert(len >= 1) by (nonlinear_arith)
            requires (n as int) < (len + 1) * (len + 1), n > 10_000, len >= 0;
        assert(len <= 4000) by (nonlinear_arith)
            requires len * len <= 2_000_000, len >= 0;
        assert(v.x <= len && -(len as int) <= v.x) by (nonlinear_arith)
            requires v.x * v.x <= n as int, (n as int) < (len + 1) * (len + 1), len >= 0;
        assert(v.y <= len && -(len as int) <= v.y) by (nonlinear_arith)
            requires v.y * v.y <= n as int, (n as int) < (len + 1) * (len + 1), len >= 0;
    }
    let rx = scale_axis(v.x, len);
    let ry = scale_axis(v.y, len);
    StickVec { x: rx, y: ry }
}

/// Clamp a vector to at most unit length (1000 milli-units): a vector already
/// inside the unit disc is returned unchanged, and a longer one is scaled
/// down by its own length, rounded up so the result stays inside the disc.
pub fn clamp_to_unit(v: StickVec) -> (r: StickVec)
    requires
        -2000 <= v.x <= 2000,
        -2000 <= v.y <= 2000,
    ensures
        v.mag_sq() <= UNIT_SQ ==> r == v,
        v.mag_sq() > UNIT_SQ ==> r.x == scaled(v.x as int, 1000, isqrt_ceil_spec(v.mag_sq()))
            && r.y == scaled(v.y as int, 1000, isqrt_ceil_spec(v.mag_sq())),
        r.mag_sq() <= UNIT_SQ,
        r.in_unit_box(),
{
    proof {
        assert(0 <= v.x * v.x <= 4_000_000 && 0 <= v.y * v.y <= 4_000_000) by (nonlinear_arith)
            requires -2000 <= v.x <= 2000, -2000 <= v.y <= 2000;
    }
    let n = v.len_sq();
    if n <= 1_000_000 {
        proof {
            assert(-1000 <= v.x <= 1000) by (nonlinear_arith)
                requires v.x * v.x <= 1_000_000;
            assert(-1000 <= v.y <= 1000) by (nonlinear_arith)
                requires v.y * v.y <= 1_000_000;
        }
        v
    } else {
        let f = isqrt(n as u64);
        proof {
            assert(f <= 2900) by (nonlinear_arith)
                requires f * f <= 8_000_000, f >= 0;
        }
        let len: u64 = if f * f < n as u64 {
            f + 1
        } else {
            f
        };
        proof {
            assert(len == isqrt_ceil_spec(n as int));
            assert(n as int <= len * len);
            assert(len >= 1) by (nonlinear_arith)
                requires (n as int) <= len * len, n > 1_000_000, len >= 0;
            assert(v.x <= len && -(len as int) <= v.x) by (nonlinear_arith)
                requires v.x * v.x <= n as int, (n as int) <= len * len, len >= 0;
            assert(v.y <= len && -(len as int) <= v.y) by (nonlinear_arith)
                requires v.y * v.y <= n as int, (n as int) <= len * len, len >= 0;
        }
        let rx = scale_axis(v.x, len);
        let ry = scale_axis(v.y, len);
        let r = StickVec { x: rx, y: ry };
        proof {
            lemma_scaled_pair_stays_in_disc(v.x as int, v.y as int, len as int);
        }
        r
    }
}

/// Scaling both axes of a vector by `1000 / len`, where `len * len` bounds
/// the squared magnitude, yields a vector inside the unit disc.
proof fn lemma_scaled_pair_stays_in_disc(x: int, y: int, len: int)
    requires
        len >= 1,
        x * x + y * y <= len * len,
    ensures
        scaled(x, 1000, len) * scaled(x, 1000, len) + scaled(y, 1000, len) * scaled(
            y,
            1000,
            len,
        ) <= 1_000_000,
{
    let ax = if x >= 0 { x } else { -x };
    let ay = if y >= 0 { y } else { -y };
    assert(ax * ax == x * x && ay * ay == y * y) by (nonlinear_arith)
        requires (ax == x || ax == -x) && (ay == y || ay == -y);
    let qx = (ax * 1000) / len;
    let qy = (ay * 1000) / len;
    let sx = scaled(x, 1000, len);
    let sy = scaled(y, 1000, len);
    assert(sx == qx || sx == -qx);
    assert(sy == qy || sy == -qy);
    assert(sx * sx == qx * qx) by (nonlinear_arith)
        requires sx == qx || sx == -qx;
    assert(sy * sy == qy * qy) by (nonlinear_arith)
        requires sy == qy || sy == -qy;
    lemma_div_pos_is_pos(ax * 1000, len);
    lemma_div_pos_is_pos(ay * 1000, len);
    lemma_fundamental_div_mod(ax * 1000, len);
    lemma_fundamental_div_mod(ay * 1000, len);
    assert(qx * len <= ax * 1000) by (nonlinear_arith)
        requires ax * 1000 == len * qx + (ax * 1000) % len, (ax * 1000) % len >= 0;
    assert(qy * len <= ay * 1000) by (nonlinear_arith)
        requires ay * 1000 == len * qy + (ay * 1000) % len, (ay * 1000) % len >= 0;
    assert((qx * qx + qy * qy) * (len * len) <= (ax * ax + ay * ay) * 1_000_000) by (nonlinear_arith)
        requires
            qx * len <= ax * 1000,
            qy * len <= ay * 1000,
            qx >= 0,
            qy >= 0,
            ax >= 0,
            ay >= 0,
            len >= 1;
    assert(qx * qx + qy * qy <= 1_000_000) by (nonlinear_arith)
        requires
            (qx * qx + qy * qy) * (len * len) <= (ax * ax + ay * ay) * 1_000_000,
            ax * ax + ay * ay <= len * len,
            len >= 1,
            qx >= 0,
            qy >= 0;
}

} // verus!
