//! Fixed-point three-component vectors.
//!
//! Every scalar is a "milli" value: the integer `1000` stands for `1.0`.
//! Coordinates are bounded by [`COORD_LIMIT`] so that products and sums of
//! products stay inside `i64`.

use vstd::prelude::*;

verus! {

/// Largest magnitude a coordinate may have (in milli units).
pub const COORD_LIMIT: i64 = 1_000_000_000;

/// Scaling factor of the fixed-point representation: `MILLI` stands for `1.0`.
pub const MILLI: i64 = 1000;

/// Product of two milli-scaled scalars, again milli-scaled.
/// The quotient is rounded toward zero.
pub open spec fn spec_milli_mul(a: int, b: int) -> int {
    if a * b >= 0 {
        (a * b) / (MILLI as int)
    } else {
        -((-(a * b)) / (MILLI as int))
    }
}

/// Bound on [`spec_milli_mul`] for inputs bounded by twice [`COORD_LIMIT`].
pub proof fn lemma_milli_mul_bound(a: int, b: int)
    requires
        -2 * COORD_LIMIT <= a <= 2 * COORD_LIMIT,
        -2 * COORD_LIMIT <= b <= 2 * COORD_LIMIT,
    ensures
        -4_000_000_000_000_000 <= spec_milli_mul(a, b) <= 4_000_000_000_000_000,
{
    assert(-(4_000_000_000_000_000_000 as int) <= a * b <= 4_000_000_000_000_000_000) by (nonlinear_arith)
        requires
            -2 * COORD_LIMIT <= a <= 2 * COORD_LIMIT,
            -2 * COORD_LIMIT <= b <= 2 * COORD_LIMIT,
    ;
    if a * b >= 0 {
        assert((a * b) / (MILLI as int) <= 4_000_000_000_000_000) by (nonlinear_arith)
            requires
                0 <= a * b <= 4_000_000_000_000_000_000,
        ;
    } else {
        assert((-(a * b)) / (MILLI as int) <= 4_000_000_000_000_000) by (nonlinear_arith)
            requires
                0 <= -(a * b) <= 4_000_000_000_000_000_000,
        ;
    }
}

/// Product of two milli-scaled scalars bounded by twice [`COORD_LIMIT`],
/// rounded toward zero.
pub fn milli_mul(a: i64, b: i64) -> (r: i64)
    requires
        -2 * COORD_LIMIT <= a <= 2 * COORD_LIMIT,
        -2 * COORD_LIMIT <= b <= 2 * COORD_LIMIT,
    ensures
        r == spec_milli_mul(a as int, b as int),
        -4_000_000_000_000_000 <= r <= 4_000_000_000_000_000,
{
    let negative: bool = (a < 0) != (b < 0);
    let ma: u64 = if a < 0 { (-(a as i128)) as u64 } else { a as u64 };
    let mb: u64 = if b < 0 { (-(b as i128)) as u64 } else { b as u64 };
    proof {
        assert((ma as int) * (mb as int) <= 4 * COORD_LIMIT * COORD_LIMIT) by (nonlinear_arith)
            requires
                0 <= ma <= 2 * COORD_LIMIT,
                0 <= mb <= 2 * COORD_LIMIT,
        ;
    }
    let prod: u128 = (ma as u128) * (mb as u128);
    let q: u128 = prod / (MILLI as u128);
    proof {
        assert(prod / (MILLI as u128) <= prod);
        if a >= 0 && b >= 0 {
            assert(a * b == ma * mb) by (nonlinear_arith)
                requires
                    ma == a,
                    mb == b,
            ;
        } else if a < 0 && b < 0 {
            assert(a * b == ma * mb) by (nonlinear_arith)
                requires
                    ma == -a,
                    mb == -b,
            ;
        } else if a < 0 {
            assert(-(a * b) == ma * mb) by (nonlinear_arith)
                requires
                    ma == -a,
                    mb == b,
            ;
        } else {
            assert(-(a * b) == ma * mb) by (nonlinear_arith)
                requires
                    ma == a,
                    mb == -b,
            ;
        }
        lemma_milli_mul_bound(a as int, b as int);
    }
    if negative {
        -(q as i64)
    } else {
        q as i64
    }
}

/// A three-component vector in milli fixed point.
#[derive(Clone, Copy, Debug, PartialEq, Eq, Structural)]
pub struct Vec3 {
    pub x: i64,
    pub y: i64,
    pub z: i64,
}

impl Vec3 {
    /// All components within [`COORD_LIMIT`] in magnitude.
    pub open spec fn in_range(self) -> bool {
        -COORD_LIMIT <= self.x <= COORD_LIMIT
        && -COORD_LIMIT <= self.y <= COORD_LIMIT
        && -COORD_LIMIT <= self.z <= COORD_LIMIT
    }

    /// The zero vector.
    pub fn zero() -> (v: Vec3)
        ensures
            v == (Vec3 { x: 0, y: 0, z: 0 }),
    {
        Vec3 { x: 0, y: 0, z: 0 }
    }

    /// A vector from its three milli-scaled components.
    pub fn new(x: i64, y: i64, z: i64) -> (v: Vec3)
        ensures
            v == (Vec3 { x: x, y: y, z: z }),
    {
        Vec3 { x, y, z }
    }

    /// Component-wise sum.
    pub fn add(self, other: Vec3) -> (v: Vec3)
        requires
            self.in_range(),
            other.in_range(),
        ensures
            v.x == self.x + other.x,
            v.y == self.y + other.y,
            v.z == self.z + other.z,
    {
        Vec3 { x: self.x + other.x, y: self.y + other.y, z: self.z + other.z }
    }

    /// Component-wise difference.
    pub fn sub(self, other: Vec3) -> (v: Vec3)
        requires
            self.in_range(),
            other.in_range(),
        ensures
            v.x == self.x - other.x,
            v.y == self.y - other.y,
            v.z == self.z - other.z,
    {
        Vec3 { x: self.x - other.x, y: self.y - other.y, z: self.z - other.z }
    }

    /// Dot product, milli-scaled.
    pub fn dot(self, other: Vec3) -> (d: i64)
        requires
            self.in_range(),
            other.in_range(),
        ensures
            d == spec_milli_mul(self.x as int, other.x as int)
                + spec_milli_mul(self.y as int, other.y as int)
                + spec_milli_mul(self.z as int, other.z as int),
    {
        let px = milli_mul(self.x, other.x);
        let py = milli_mul(self.y, other.y);
        let pz = milli_mul(self.z, other.z);
        px + py + pz
    }

    /// Cross product, milli-scaled.
    pub fn cross(self, other: Vec3) -> (v: Vec3)
        requires
            self.in_range(),
            other.in_range(),
        ensures
            v.x == spec_milli_mul(self.y as int, other.z as int)
                - spec_milli_mul(self.z as int, other.y as int),
            v.y == spec_milli_mul(self.z as int, other.x as int)
                - spec_milli_mul(self.x as int, other.z as int),
            v.z == spec_milli_mul(self.x as int, other.y as int)
                - spec_milli_mul(self.y as int, other.x as int),
    {
        Vec3 {
            x: milli_mul(self.y, other.z) - milli_mul(self.z, other.y),
            y: milli_mul(self.z, other.x) - milli_mul(self.x, other.z),
            z: milli_mul(self.x, other.y) - milli_mul(self.y, other.x),
        }
    }

    /// All components within twice [`COORD_LIMIT`] in magnitude, as holds
    /// of a difference of two in-range vectors.
    pub open spec fn in_wide_range(self) -> bool {
        -2 * COORD_LIMIT <= self.x <= 2 * COORD_LIMIT
        && -2 * COORD_LIMIT <= self.y <= 2 * COORD_LIMIT
        && -2 * COORD_LIMIT <= self.z <= 2 * COORD_LIMIT
    }

    /// Squared length as an unscaled 128-bit value (sum of raw squares).
    pub fn length_squared_raw(self) -> (s: u128)
        requires
            self.in_wide_range(),
        ensures
            s == self.x * self.x + self.y * self.y + self.z * self.z,
    {
        proof {
            lemma_square_bound(self.x as int);
            lemma_square_bound(self.y as int);
            lemma_square_bound(self.z as int);
        }
        let sx = (self.x as i128) * (self.x as i128);
        let sy = (self.y as i128) * (self.y as i128);
        let sz = (self.z as i128) * (self.z as i128);
        (sx + sy + sz) as u128
    }

    /// Length in milli units: the integer square root of the sum of squares.
    pub fn length(self) -> (l: u64)
        requires
            self.in_wide_range(),
        ensures
            l * l <= self.x * self.x + self.y * self.y + self.z * self.z
                < (l + 1) * (l + 1),
    {
        isqrt(self.length_squared_raw())
    }

    /// Distance to another vector, in milli units.
    pub fn distance(self, other: Vec3) -> (d: u64)
        requires
            self.in_range(),
            other.in_range(),
        ensures
            d * d <= (self.x - other.x) * (self.x - other.x)
                + (self.y - other.y) * (self.y - other.y)
                + (self.z - other.z) * (self.z - other.z)
                < (d + 1) * (d + 1),
    {
        self.sub(other).length()
    }

    /// Component-wise maximum.
    pub fn max(self, other: Vec3) -> (v: Vec3)
        ensures
            v.x == if self.x >= other.x { self.x } else { other.x },
            v.y == if self.y >= other.y { self.y } else { other.y },
            v.z == if self.z >= other.z { self.z } else { other.z },
    {
        Vec3 {
            x: if self.x >= other.x { self.x } else { other.x },
            y: if self.y >= other.y { self.y } else { other.y },
            z: if self.z >= other.z { self.z } else { other.z },
        }
    }

    /// Component-wise minimum.
    pub fn min(self, other: Vec3) -> (v: Vec3)
        ensures
            v.x == if self.x <= other.x { self.x } else { other.x },
            v.y == if self.y <= other.y { self.y } else { other.y },
            v.z == if self.z <= other.z { self.z } else { other.z },
    {
        Vec3 {
            x: if self.x <= other.x { self.x } else { other.x },
            y: if self.y <= other.y { self.y } else { other.y },
            z: if self.z <= other.z { self.z } else { other.z },
        }
    }

    /// Linear interpolation: `t` is milli-scaled, `0` gives `self`,
    /// `1000` gives `other`.
    pub fn lerp(self, other: Vec3, t: i64) -> (v: Vec3)
        requires
            self.in_range(),
            other.in_range(),
            0 <= t <= MILLI,
        ensures
            v.x == self.x + spec_milli_mul((other.x - self.x) as int, t as int),
            v.y == self.y + spec_milli_mul((other.y - self.y) as int, t as int),
            v.z == self.z + spec_milli_mul((other.z - self.z) as int, t as int),
    {
        Vec3 {
            x: self.x + milli_mul(other.x - self.x, t),
            y: self.y + milli_mul(other.y - self.y, t),
            z: self.z + milli_mul(other.z - self.z, t),
        }
    }
}

/// A square of a bounded coordinate is non-negative and bounded.
proof fn lemma_square_bound(a: int)
    requires
        -2 * COORD_LIMIT <= a <= 2 * COORD_LIMIT,
    ensures
        0 <= a * a <= 4 * COORD_LIMIT * COORD_LIMIT,
{
    assert(0 <= a * a <= 4 * COORD_LIMIT * COORD_LIMIT) by (nonlinear_arith)
        requires
            -2 * COORD_LIMIT <= a <= 2 * COORD_LIMIT,
    ;
}

/// Integer square root: the greatest `r` with `r * r <= n`.
pub fn isqrt(n: u128) -> (r: u64)
    ensures
        r * r <= n < (r + 1) * (r + 1),
{
    let mut lo: u64 = 0;
    let mut hi: u64 = u64::MAX;
    proof {
        assert(n < (u64::MAX + 1) * (u64::MAX + 1)) by (nonlinear_arith)
            requires
                n <= u128::MAX,
        ;
    }
    // Binary search for the greatest lo with lo * lo <= n.
    while lo < hi
        invariant
            lo <= hi,
            lo * lo <= n,
            n < (hi + 1) * (hi + 1),
        decreases hi - lo,
    {
        let mid = hi - (hi - lo) / 2;
        proof {
            assert((mid as int) * (mid as int) <= u128::MAX) by (nonlinear_arith)
                requires
                    0 <= mid <= u64::MAX,
            ;
            assert(((mid - 1) as int + 1) * ((mid - 1) as int + 1) == (mid as int) * (mid as int));
        }
        let sq = (mid as u128) * (mid as u128);
        if sq <= n {
            lo = mid;
        } else {
            hi = mid - 1;
        }
    }
    lo
}

} // verus!
