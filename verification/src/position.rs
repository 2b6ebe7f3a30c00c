//! Positions on the map, pixel vectors on the screen, and the exact
//! fixed-point arithmetic they share.

use vstd::prelude::*;
use vstd::arithmetic::div_mod::{lemma_div_is_ordered, lemma_div_multiples_vanish, lemma_basic_div};
use vstd::arithmetic::mul::lemma_mul_inequality;

verus! {

/// How many fixed-point steps make one coordinate unit of a [`Position`]:
/// a position coordinate is a whole number of millionths of a unit.
///
/// In global (Web-Mercator) mode, the x coordinate is the longitude in
/// microdegrees, and the y coordinate is the Mercator ordinate
/// `asinh(tan(latitude))` expressed in microdegrees (zero at the equator,
/// 180 degrees at roughly 85.05 degrees north). Converting a geodetic
/// latitude to and from that ordinate takes transcendental arithmetic and
/// is left to the host application; everything this crate does with a
/// position is exact integer arithmetic on this representation.
///
/// In local mode both coordinates are millionths of an arbitrary planar
/// unit.
pub const POSITION_SCALE: i64 = 1_000_000;

/// How many fixed-point steps make one screen pixel of a [`Pixels`]
/// vector: 1000 * 2^20. This scale is chosen so that the local projector's
/// pixel arithmetic is exact: one thousandth of a map unit spans
/// `2^(20 - zoom)` pixels, which is a whole number of these steps at every
/// zoom level up to [`crate::projector::MAX_ZOOM`].
pub const PIXEL_SCALE: i64 = 1000 * 1024 * 1024;

/// A 2-component map coordinate; see [`POSITION_SCALE`] for what one step
/// of each component means. Immutable value: operations return new values.
#[derive(Clone, Copy, PartialEq, Eq, Structural, Debug)]
pub struct Position {
    /// Longitude (global mode) or planar x (local mode), in millionths.
    pub x: i64,
    /// Mercator ordinate (global mode) or planar y (local mode), in
    /// millionths. Grows northward / upward.
    pub y: i64,
}

impl Position {
    /// Make a position from fixed-point coordinates.
    pub fn new(x: i64, y: i64) -> (r: Position)
        ensures
            r.x == x,
            r.y == y,
    {
        Position { x, y }
    }
}

/// A 2-component pixel vector (a screen point, or a difference of screen
/// points such as a drag delta); see [`PIXEL_SCALE`] for what one step of
/// each component means. The y component grows downward, as screen rows do.
#[derive(Clone, Copy, PartialEq, Eq, Structural, Debug)]
pub struct Pixels {
    pub x: i64,
    pub y: i64,
}

/// `a + b` clamped to the range of `i64`.
pub open spec fn sat_add(a: int, b: int) -> int {
    if a + b > i64::MAX {
        i64::MAX as int
    } else if a + b < i64::MIN {
        i64::MIN as int
    } else {
        a + b
    }
}

/// The sum of two fixed-point components, clamped at the ends of the
/// representable range so that accumulating arbitrarily many pan deltas
/// can never fail.
pub fn sat_add_i64(a: i64, b: i64) -> (r: i64)
    ensures
        r == sat_add(a as int, b as int),
{
    if b >= 0 {
        if a > i64::MAX - b {
            i64::MAX
        } else {
            a + b
        }
    } else {
        if a < i64::MIN - b {
            i64::MIN
        } else {
            a + b
        }
    }
}

/// Division that truncates toward zero, as machine division does; the
/// divisor is positive.
pub open spec fn div_trunc(a: int, d: int) -> int {
    if a >= 0 {
        a / d
    } else {
        -((-a) / d)
    }
}

/// Truncating division undoes an exact multiplication.
pub proof fn lemma_div_trunc_exact(a: int, d: int)
    requires
        0 < d,
    ensures
        div_trunc(a * d, d) == a,
{
    if a >= 0 {
        lemma_div_multiples_vanish(a, d);
        assert(a * d == d * a) by (nonlinear_arith);
    } else {
        lemma_div_multiples_vanish(-a, d);
        assert(-(a * d) == d * (-a)) by (nonlinear_arith);
    }
}

/// Truncating division by a divisor at least as large as the multiplier
/// shrinks the magnitude: `|v * m / d| <= |v|` when `m <= d`.
pub proof fn lemma_mul_div_trunc_bound(v: int, m: int, d: int)
    requires
        0 < d,
        0 <= m <= d,
    ensures
        v >= 0 ==> 0 <= div_trunc(v * m, d) <= v,
        v < 0 ==> v <= div_trunc(v * m, d) <= 0,
{
    if v >= 0 {
        lemma_mul_inequality(m, d, v);
        assert(v * m == m * v && v * d == d * v) by (nonlinear_arith);
        lemma_div_is_ordered(v * m, v * d, d);
        lemma_div_multiples_vanish(v, d);
        assert(v * m >= 0) by (nonlinear_arith)
            requires
                v >= 0,
                m >= 0,
        ;
        lemma_div_is_ordered(0, v * m, d);
    } else {
        lemma_mul_inequality(m, d, -v);
        assert((-v) * m == m * (-v) && (-v) * d == d * (-v)) by (nonlinear_arith);
        lemma_div_is_ordered((-v) * m, (-v) * d, d);
        lemma_div_multiples_vanish(-v, d);
        assert((-v) * m >= 0) by (nonlinear_arith)
            requires
                v < 0,
                m >= 0,
        ;
        lemma_div_is_ordered(0, (-v) * m, d);
        assert((-v) * m == -(v * m)) by (nonlinear_arith);
    }
}

/// `v * m / d`, truncated toward zero, computed without overflow. The
/// divisor must be at least the multiplier, so the result never outgrows
/// `v` in magnitude.
pub fn mul_div_trunc(v: i64, m: u64, d: u64) -> (r: i64)
    requires
        0 < d,
        m <= d,
    ensures
        r == div_trunc(v * m, d as int),
        v >= 0 ==> 0 <= r <= v,
        v < 0 ==> v <= r <= 0,
{
    proof {
        lemma_mul_div_trunc_bound(v as int, m as int, d as int);
    }
    if m == 0 {
        proof {
            assert(v * m == 0) by (nonlinear_arith)
                requires m == 0;
            lemma_basic_div(0, d as int);
        }
        0
    } else if v >= 0 {
        let vu: u128 = v as u128;
        let mu: u128 = m as u128;
        proof {
            assert(vu * mu == v * m && vu * mu < 0x8000_0000_0000_0000u128 * 0x1_0000_0000_0000_0000u128)
                by (nonlinear_arith)
                requires
                    vu == v,
                    mu == m,
                    0 <= vu < 0x8000_0000_0000_0000u128,
                    mu < 0x1_0000_0000_0000_0000u128;
        }
        let q: u128 = (vu * mu) / (d as u128);
        proof {
            assert(v * m >= 0);
            assert(div_trunc(v * m, d as int) == q);
        }
        q as i64
    } else {
        let mag: u128 = (-(v as i128)) as u128;
        let mu: u128 = m as u128;
        proof {
            assert(mag * mu == -(v as int) * m
                && mag * mu < 0x8000_0000_0000_0001u128 * 0x1_0000_0000_0000_0000u128)
                by (nonlinear_arith)
                requires
                    mag == -(v as int),
                    mu == m,
                    0 <= mag <= 0x8000_0000_0000_0000u128,
                    mu < 0x1_0000_0000_0000_0000u128;
        }
        let q: u128 = (mag * mu) / (d as u128);
        proof {
            assert(-(v as int) * m == -(v * m) && v * m < 0) by (nonlinear_arith)
                requires
                    v < 0,
                    m > 0;
            assert(div_trunc(v * m, d as int) == -(q as int));
        }
        if q >= 0x8000_0000_0000_0000u128 {
            i64::MIN
        } else {
            -(q as i64)
        }
    }
}

impl Pixels {
    /// Make a pixel vector from fixed-point components.
    pub fn new(x: i64, y: i64) -> (r: Pixels)
        ensures
            r.x == x,
            r.y == y,
    {
        Pixels { x, y }
    }

    /// The zero vector: no offset.
    pub fn zero() -> (r: Pixels)
        ensures
            r.x == 0,
            r.y == 0,
    {
        Pixels { x: 0, y: 0 }
    }

    /// The sum of two pixel vectors, each component clamped as
    /// [`sat_add`] describes.
    pub fn saturating_add(self, other: Pixels) -> (r: Pixels)
        ensures
            r.x == sat_add(self.x as int, other.x as int),
            r.y == sat_add(self.y as int, other.y as int),
    {
        Pixels { x: sat_add_i64(self.x, other.x), y: sat_add_i64(self.y, other.y) }
    }

    /// This vector scaled by `amount` thousandths, each component
    /// truncated toward zero. Used for the decaying glide after a drag.
    pub fn scaled_milli(self, amount: u64) -> (r: Pixels)
        requires
            amount <= 1000,
        ensures
            r.x == div_trunc(self.x * amount, 1000),
            r.y == div_trunc(self.y * amount, 1000),
    {
        Pixels {
            x: mul_div_trunc(self.x, amount, 1000),
            y: mul_div_trunc(self.y, amount, 1000),
        }
    }
}

/// A [`Position`] plus an accumulated pixel offset: a pan that has not yet
/// been folded into the base position. The projector's `zero_offset` folds
/// it in.
#[derive(Clone, Copy, PartialEq, Eq, Structural, Debug)]
pub struct AdjustedPosition {
    /// The base position.
    pub position: Position,
    /// The pending pan, in screen pixels.
    pub offset: Pixels,
}

impl AdjustedPosition {
    /// Couple a position with a pending pixel offset.
    pub fn new(position: Position, offset: Pixels) -> (r: AdjustedPosition)
        ensures
            r.position == position,
            r.offset == offset,
    {
        AdjustedPosition { position, offset }
    }

    /// The value after one more pan step: the base position is kept and
    /// the delta is added (with saturation) to the pending offset.
    pub fn shift(self, delta: Pixels) -> (r: AdjustedPosition)
        ensures
            r.position == self.position,
            r.offset.x == sat_add(self.offset.x as int, delta.x as int),
            r.offset.y == sat_add(self.offset.y as int, delta.y as int),
    {
        AdjustedPosition { position: self.position, offset: self.offset.saturating_add(delta) }
    }
}

} // verus!
