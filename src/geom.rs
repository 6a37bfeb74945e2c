//! Fixed-point scalars, points, ranges and rectangles.
use vstd::prelude::*;

verus! {

/// The number of raw steps in one unit of a [`Scalar`].
pub const UNIT: i64 = 1_000_000;

/// A fixed-point number held as a count of millionths of a unit.
#[derive(Clone, Copy, Debug, PartialEq, Eq, Structural)]
pub struct Scalar {
    pub raw: i64,
}

impl Scalar {
    /// The value in millionths of a unit.
    pub open spec fn val(self) -> int {
        self.raw as int
    }

    pub fn zero() -> (r: Scalar)
        ensures
            r.val() == 0,
    {
        Scalar { raw: 0 }
    }

    /// The scalar that is exactly `n` units.
    pub fn from_int(n: i32) -> (r: Scalar)
        ensures
            r.val() == n * UNIT,
    {
        assert(-2147483648 * 1000000 <= n * 1000000 <= 2147483647 * 1000000) by (nonlinear_arith)
            requires
                -2147483648 <= n <= 2147483647,
        ;
        Scalar { raw: n as i64 * UNIT }
    }

    /// The scalar that is `raw` millionths of a unit.
    pub fn from_raw(raw: i64) -> (r: Scalar)
        ensures
            r.raw == raw,
    {
        Scalar { raw }
    }

    pub fn abs(self) -> (r: Scalar)
        requires
            self.raw > i64::MIN,
        ensures
            r.val() == abs_int(self.val()),
    {
        if self.raw < 0 {
            Scalar { raw: -self.raw }
        } else {
            self
        }
    }

    pub fn min(self, other: Scalar) -> (r: Scalar)
        ensures
            r.val() == min_int(self.val(), other.val()),
    {
        if self.raw <= other.raw {
            self
        } else {
            other
        }
    }

    pub fn max(self, other: Scalar) -> (r: Scalar)
        ensures
            r.val() == max_int(self.val(), other.val()),
    {
        if self.raw >= other.raw {
            self
        } else {
            other
        }
    }
}

pub open spec fn abs_int(a: int) -> int {
    if a < 0 {
        -a
    } else {
        a
    }
}

pub open spec fn min_int(a: int, b: int) -> int {
    if a <= b {
        a
    } else {
        b
    }
}

pub open spec fn max_int(a: int, b: int) -> int {
    if a >= b {
        a
    } else {
        b
    }
}

/// Whether an integer fits in an `i64`.
pub open spec fn fits_i64(a: int) -> bool {
    i64::MIN <= a <= i64::MAX
}

/// Division that rounds toward zero, as integer division does in Rust.
pub open spec fn div_trunc(a: int, d: int) -> int
    recommends
        d > 0,
{
    if a >= 0 {
        a / d
    } else {
        -((-a) / d)
    }
}

/// A point (or a vector) on the plane.
#[derive(Clone, Copy, Debug, PartialEq, Eq, Structural)]
pub struct Point2 {
    pub x: Scalar,
    pub y: Scalar,
}

/// A point (or a vector) in space.
#[derive(Clone, Copy, Debug, PartialEq, Eq, Structural)]
pub struct Point3 {
    pub x: Scalar,
    pub y: Scalar,
    pub z: Scalar,
}

pub fn pt2(x: Scalar, y: Scalar) -> (r: Point2)
    ensures
        r == (Point2 { x, y }),
{
    Point2 { x, y }
}

pub fn pt3(x: Scalar, y: Scalar, z: Scalar) -> (r: Point3)
    ensures
        r == (Point3 { x, y, z }),
{
    Point3 { x, y, z }
}


/// A one-dimensional interval between two ends, which may come in either order.
#[derive(Clone, Copy, Debug, PartialEq, Eq, Structural)]
pub struct Range {
    pub start: Scalar,
    pub end: Scalar,
}

impl Range {
    pub fn new(start: Scalar, end: Scalar) -> (r: Range)
        ensures
            r == (Range { start, end }),
    {
        Range { start, end }
    }

    /// The lower end.
    pub open spec fn lo(self) -> int {
        min_int(self.start.val(), self.end.val())
    }

    /// The upper end.
    pub open spec fn hi(self) -> int {
        max_int(self.start.val(), self.end.val())
    }

    /// The same interval with its ends in increasing order.
    pub fn absolute(self) -> (r: Range)
        ensures
            r.start.val() == self.lo(),
            r.end.val() == self.hi(),
    {
        if self.start.raw > self.end.raw {
            Range { start: self.end, end: self.start }
        } else {
            self
        }
    }

    /// Whether the two intervals share at least one point.
    pub open spec fn overlaps(self, other: Range) -> bool {
        max_int(self.lo(), other.lo()) <= min_int(self.hi(), other.hi())
    }

    /// The interval that both cover, if they share a point.
    pub open spec fn overlap_spec(self, other: Range) -> Option<Range> {
        if self.overlaps(other) {
            Some(
                Range {
                    start: Scalar { raw: max_int(self.lo(), other.lo()) as i64 },
                    end: Scalar { raw: min_int(self.hi(), other.hi()) as i64 },
                },
            )
        } else {
            None
        }
    }

    /// The interval that both cover, or `None` where they share no point.
    pub fn overlap(self, other: Range) -> (r: Option<Range>)
        ensures
            r == self.overlap_spec(other),
    {
        let a = self.absolute();
        let b = other.absolute();
        let start = a.start.max(b.start);
        let end = a.end.min(b.end);
        if start.raw <= end.raw {
            Some(Range { start, end })
        } else {
            None
        }
    }
}

/// An axis-aligned rectangle, as an interval on each axis.
#[derive(Clone, Copy, Debug, PartialEq, Eq, Structural)]
pub struct Rect {
    pub x: Range,
    pub y: Range,
}

impl Rect {
    /// The rectangle between the given left, right, bottom and top edges.
    pub fn from_l_r_b_t(left: Scalar, right: Scalar, bottom: Scalar, top: Scalar) -> (r: Rect)
        ensures
            r == (Rect { x: Range { start: left, end: right }, y: Range { start: bottom, end: top } }),
    {
        Rect { x: Range { start: left, end: right }, y: Range { start: bottom, end: top } }
    }

    /// The region that both rectangles cover, if they share a point.
    pub open spec fn overlap_spec(self, other: Rect) -> Option<Rect> {
        match (self.x.overlap_spec(other.x), self.y.overlap_spec(other.y)) {
            (Some(x), Some(y)) => Some(Rect { x, y }),
            _ => None,
        }
    }

    /// The region that both rectangles cover, or `None` where they share no point.
    ///
    /// Rectangles that only touch along an edge overlap in a rectangle of zero width or height.
    pub fn overlap(self, other: Rect) -> (r: Option<Rect>)
        ensures
            r == self.overlap_spec(other),
    {
        match self.x.overlap(other.x) {
            Some(x) => match self.y.overlap(other.y) {
                Some(y) => Some(Rect { x, y }),
                None => None,
            },
            None => None,
        }
    }
}

/// Pi in millionths, rounded to the nearest.
pub const PI_RAW: i64 = 3_141_593;

/// Two pi in millionths, rounded to the nearest.
pub const TAU_RAW: i64 = 6_283_185;

/// The radians, in millionths, of `d` degrees.
pub open spec fn deg_to_rad_spec(d: Scalar) -> int {
    div_trunc(d.val() * PI_RAW, 180 * UNIT)
}

/// The radians, in millionths, of `t` turns.
pub open spec fn turns_to_rad_spec(t: Scalar) -> int {
    div_trunc(t.val() * TAU_RAW, UNIT as int)
}

/// `a * m / d`, rounded toward zero, on the magnitude of `a`.
fn mul_div_trunc(a: i64, m: u128, d: u128) -> (r: i128)
    requires
        0 < m <= 1_000_000_000,
        0 < d,
    ensures
        r == div_trunc(a * m, d as int),
{
    let neg = a < 0;
    let mag: u128 = if neg {
        (-(a as i128)) as u128
    } else {
        a as u128
    };
    assert(mag <= 9_223_372_036_854_775_808);
    assert(mag * m <= 9_223_372_036_854_775_808 * 1_000_000_000) by (nonlinear_arith)
        requires
            mag <= 9_223_372_036_854_775_808,
            0 < m <= 1_000_000_000,
    ;
    let q = mag * m / d;
    assert(q <= mag * m) by (nonlinear_arith)
        requires
            q == (mag * m) as int / d as int,
            d > 0,
            mag * m >= 0,
    ;
    if neg {
        assert(a * m == -(mag * m)) by (nonlinear_arith)
            requires
                mag == -a,
        ;
        -(q as i128)
    } else {
        q as i128
    }
}

/// Convert degrees to radians.
pub fn deg_to_rad(d: Scalar) -> (r: Scalar)
    ensures
        r.val() == deg_to_rad_spec(d),
{
    let q = mul_div_trunc(d.raw, PI_RAW as u128, (180 * UNIT) as u128);
    assert(abs_int(div_trunc(d.val() * PI_RAW, 180 * UNIT)) <= abs_int(d.val())) by (nonlinear_arith)
        requires
            PI_RAW == 3_141_593,
            UNIT == 1_000_000,
    {
        let a = d.val();
        if a >= 0 {
            assert(a * 3_141_593 / 180_000_000 <= a);
        } else {
            assert((-a) * 3_141_593 / 180_000_000 <= -a);
            assert(-(a * 3_141_593) == (-a) * 3_141_593);
        }
    }
    Scalar { raw: q as i64 }
}

/// Convert turns to radians.
pub fn turns_to_rad(t: Scalar) -> (r: Scalar)
    requires
        fits_i64(turns_to_rad_spec(t)),
    ensures
        r.val() == turns_to_rad_spec(t),
{
    let q = mul_div_trunc(t.raw, TAU_RAW as u128, UNIT as u128);
    Scalar { raw: q as i64 }
}

/// The degrees, in millionths, of `r` radians.
pub open spec fn rad_to_deg_spec(r: Scalar) -> int {
    div_trunc(r.val() * (180 * UNIT), PI_RAW as int)
}

/// Convert radians to degrees.
pub fn rad_to_deg(r: Scalar) -> (d: Scalar)
    requires
        fits_i64(rad_to_deg_spec(r)),
    ensures
        d.val() == rad_to_deg_spec(r),
{
    let q = mul_div_trunc(r.raw, (180 * UNIT) as u128, PI_RAW as u128);
    Scalar { raw: q as i64 }
}

/// Half of `s`, rounded toward zero.
pub fn half(s: Scalar) -> (r: Scalar)
    ensures
        r.val() == div_trunc(s.val(), 2),
{
    Scalar { raw: s.raw / 2 }
}

/// The nearest value an `i64` can hold.
pub open spec fn clamp_i64(a: int) -> int {
    if a < i64::MIN {
        i64::MIN as int
    } else if a > i64::MAX {
        i64::MAX as int
    } else {
        a
    }
}

impl Scalar {
    /// The negation, saturating at the bounds.
    pub fn neg_sat(self) -> (r: Scalar)
        ensures
            r.val() == clamp_i64(-self.val()),
    {
        if self.raw == i64::MIN {
            Scalar { raw: i64::MAX }
        } else {
            Scalar { raw: -self.raw }
        }
    }

    /// The sum, saturating at the bounds.
    pub fn add_sat(self, other: Scalar) -> (r: Scalar)
        ensures
            r.val() == clamp_i64(self.val() + other.val()),
    {
        let sum = self.raw as i128 + other.raw as i128;
        Scalar { raw: clamp_to_i64(sum) }
    }

    /// The difference, saturating at the bounds.
    pub fn sub_sat(self, other: Scalar) -> (r: Scalar)
        ensures
            r.val() == clamp_i64(self.val() - other.val()),
    {
        let diff = self.raw as i128 - other.raw as i128;
        Scalar { raw: clamp_to_i64(diff) }
    }
}

/// Convert radians to degrees, saturating at the bounds.
pub fn rad_to_deg_sat(r: Scalar) -> (d: Scalar)
    ensures
        d.val() == clamp_i64(rad_to_deg_spec(r)),
{
    let q = mul_div_trunc(r.raw, (180 * UNIT) as u128, PI_RAW as u128);
    Scalar { raw: clamp_to_i64(q) }
}

fn clamp_to_i64(a: i128) -> (r: i64)
    ensures
        r == clamp_i64(a as int),
{
    if a > i64::MAX as i128 {
        i64::MAX
    } else if a < i64::MIN as i128 {
        i64::MIN
    } else {
        a as i64
    }
}

/// `c + (v - c) * target / extent`, rounded toward zero and saturating: `v`
/// moved away from `c` so that a span of `extent` becomes one of `target`.
/// Where `extent` is zero there is nothing to stretch and `v` stays.
pub open spec fn stretch_spec(v: int, c: int, target: int, extent: int) -> int {
    if extent == 0 {
        v
    } else {
        clamp_i64(c + div_trunc((v - c) * target, extent))
    }
}

/// Move `v` away from `c` so that a span of `extent` becomes one of `target`.
pub fn stretch(v: i64, c: i64, target: i64, extent: u64) -> (r: i64)
    ensures
        r == stretch_spec(v as int, c as int, target as int, extent as int),
{
    if extent == 0 {
        return v;
    }
    let d: i128 = v as i128 - c as i128;
    let t: i128 = target as i128;
    assert(-18_446_744_073_709_551_615 <= d <= 18_446_744_073_709_551_615);
    proof {
        lemma_product_bound(d as int, t as int);
    }
    let p: i128 = d * t;
    let e: i128 = extent as i128;
    let q: i128 = if p >= 0 {
        p / e
    } else {
        -((-p) / e)
    };
    assert(-170_141_183_460_469_231_722_463_931_679_029_329_920 <= q
        <= 170_141_183_460_469_231_722_463_931_679_029_329_920) by (nonlinear_arith)
        requires
            p >= 0 ==> q == (p as int) / (e as int),
            p < 0 ==> q == -((-(p as int)) / (e as int)),
            e >= 1,
            -170_141_183_460_469_231_722_463_931_679_029_329_920 <= p
                <= 170_141_183_460_469_231_722_463_931_679_029_329_920,
    {
        if p >= 0 {
            assert((p as int) / (e as int) <= p as int);
        } else {
            assert((-(p as int)) / (e as int) <= -(p as int));
        }
    }
    clamp_to_i64(c as i128 + q)
}

proof fn lemma_product_bound(d: int, t: int)
    requires
        -18_446_744_073_709_551_615 <= d <= 18_446_744_073_709_551_615,
        -9_223_372_036_854_775_808 <= t <= 9_223_372_036_854_775_807,
    ensures
        -170_141_183_460_469_231_722_463_931_679_029_329_920 <= d * t
            <= 170_141_183_460_469_231_722_463_931_679_029_329_920,
{
    let ad = abs_int(d);
    let at = abs_int(t);
    assert(ad * at <= 18_446_744_073_709_551_615 * at) by (nonlinear_arith)
        requires
            0 <= ad <= 18_446_744_073_709_551_615,
            at >= 0,
    ;
    assert(18_446_744_073_709_551_615 * at <= 18_446_744_073_709_551_615 * 9_223_372_036_854_775_808)
        by (nonlinear_arith)
        requires
            0 <= at <= 9_223_372_036_854_775_808,
    ;
    assert(d * t == ad * at || d * t == -(ad * at)) by (nonlinear_arith)
        requires
            ad == abs_int(d),
            at == abs_int(t),
    {
        if d < 0 && t < 0 {
            assert(d * t == (-d) * (-t));
        } else if d < 0 {
            assert(d * t == -((-d) * t));
        } else if t < 0 {
            assert(d * t == -(d * (-t)));
        }
    }
}

} // verus!
