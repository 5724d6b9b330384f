//! Integer layer-space geometry: points, sizes, vectors and rectangles.
//!
//! Coordinates are `i64` layer units. Every arithmetic operation saturates
//! into the `i64` range, so all geometric operations are total; the spec
//! functions [`sadd`], [`ssub`], [`smul`] and [`sneg`] state the saturating
//! semantics exactly.

use vstd::prelude::*;

verus! {

/// Clamps an unbounded integer into the `i64` range.
pub open spec fn sat_i64(v: int) -> int {
    if v < i64::MIN as int {
        i64::MIN as int
    } else if v > i64::MAX as int {
        i64::MAX as int
    } else {
        v
    }
}

/// Saturating sum.
pub open spec fn sadd(a: int, b: int) -> int {
    sat_i64(a + b)
}

/// Saturating difference.
pub open spec fn ssub(a: int, b: int) -> int {
    sat_i64(a - b)
}

/// Saturating product.
pub open spec fn smul(a: int, b: int) -> int {
    sat_i64(a * b)
}

/// Saturating negation.
pub open spec fn sneg(a: int) -> int {
    sat_i64(-a)
}

/// The smaller of two unbounded integers.
pub open spec fn imin(a: int, b: int) -> int {
    if a <= b {
        a
    } else {
        b
    }
}

/// The larger of two unbounded integers.
pub open spec fn imax(a: int, b: int) -> int {
    if a >= b {
        a
    } else {
        b
    }
}

/// The magnitude of an unbounded integer.
pub open spec fn abs_int(a: int) -> int {
    if a >= 0 {
        a
    } else {
        -a
    }
}

/// The quotient of `a` and `b` rounded toward zero (0 when `b == 0`).
pub open spec fn trunc_div_int(a: int, b: int) -> int {
    if b == 0 {
        0
    } else if (a >= 0) == (b > 0) {
        abs_int(a) / abs_int(b)
    } else {
        -(abs_int(a) / abs_int(b))
    }
}

/// Clamps a 128-bit intermediate into the `i64` range.
pub fn sat_to_i64(v: i128) -> (r: i64)
    ensures
        r as int == sat_i64(v as int),
{
    if v < i64::MIN as i128 {
        i64::MIN
    } else if v > i64::MAX as i128 {
        i64::MAX
    } else {
        v as i64
    }
}

pub fn sat_add64(a: i64, b: i64) -> (r: i64)
    ensures
        r as int == sadd(a as int, b as int),
{
    sat_to_i64(a as i128 + b as i128)
}

pub fn sat_sub64(a: i64, b: i64) -> (r: i64)
    ensures
        r as int == ssub(a as int, b as int),
{
    sat_to_i64(a as i128 - b as i128)
}

pub fn sat_mul64(a: i64, b: i64) -> (r: i64)
    ensures
        r as int == smul(a as int, b as int),
{
    proof {
        assert((a as int) * (b as int) <= i128::MAX as int && (a as int) * (b as int)
            >= i128::MIN as int) by (nonlinear_arith)
            requires
                i64::MIN as int <= a as int <= i64::MAX as int,
                i64::MIN as int <= b as int <= i64::MAX as int,
        ;
    }
    sat_to_i64(a as i128 * b as i128)
}

pub fn sat_neg64(a: i64) -> (r: i64)
    ensures
        r as int == sneg(a as int),
{
    sat_to_i64(-(a as i128))
}

/// Divides `a` by the magnitude of `b`, rounding toward zero and saturating
/// the result into `i64`.
pub fn trunc_div_mag64(a: i64, b: i64) -> (r: i64)
    requires
        b != 0,
    ensures
        r as int == sat_i64(trunc_div_int(a as int, abs_int(b as int))),
{
    let na: u64 = if a >= 0 {
        a as u64
    } else {
        (-(a as i128)) as u64
    };
    let nb: u64 = if b >= 0 {
        b as u64
    } else {
        (-(b as i128)) as u64
    };
    let q = na / nb;
    if a >= 0 {
        sat_to_i64(q as i128)
    } else {
        sat_to_i64(-(q as i128))
    }
}

pub fn max64(a: i64, b: i64) -> (r: i64)
    ensures
        r as int == if a >= b { a as int } else { b as int },
{
    if a >= b { a } else { b }
}

pub fn min64(a: i64, b: i64) -> (r: i64)
    ensures
        r as int == if a <= b { a as int } else { b as int },
{
    if a <= b { a } else { b }
}

/// A position in some layer coordinate space.
#[derive(Clone, Copy, PartialEq, Eq, Structural, Debug)]
pub struct LayerPoint {
    pub x: i64,
    pub y: i64,
}

/// A position in world (device-independent screen) space.
pub type WorldPoint = LayerPoint;

/// An extent in some layer coordinate space.
#[derive(Clone, Copy, PartialEq, Eq, Structural, Debug)]
pub struct LayerSize {
    pub width: i64,
    pub height: i64,
}

/// A displacement in some layer coordinate space.
#[derive(Clone, Copy, PartialEq, Eq, Structural, Debug)]
pub struct LayerVector2D {
    pub x: i64,
    pub y: i64,
}

/// An axis-aligned rectangle: an origin and an extent.
#[derive(Clone, Copy, PartialEq, Eq, Structural, Debug)]
pub struct LayerRect {
    pub origin: LayerPoint,
    pub size: LayerSize,
}

/// An axis-aligned rectangle in integer device pixels.
pub type DeviceIntRect = LayerRect;

impl LayerPoint {
    pub fn new(x: i64, y: i64) -> (r: LayerPoint)
        ensures
            r == (LayerPoint { x, y }),
    {
        LayerPoint { x, y }
    }

    pub fn zero() -> (r: LayerPoint)
        ensures
            r == (LayerPoint { x: 0i64, y: 0i64 }),
    {
        LayerPoint { x: 0, y: 0 }
    }

    pub fn to_vector(self) -> (r: LayerVector2D)
        ensures
            r == (LayerVector2D { x: self.x, y: self.y }),
    {
        LayerVector2D { x: self.x, y: self.y }
    }
}

impl LayerSize {
    pub fn new(width: i64, height: i64) -> (r: LayerSize)
        ensures
            r == (LayerSize { width, height }),
    {
        LayerSize { width, height }
    }

    pub fn zero() -> (r: LayerSize)
        ensures
            r == (LayerSize { width: 0i64, height: 0i64 }),
    {
        LayerSize { width: 0, height: 0 }
    }
}

impl LayerVector2D {
    pub fn new(x: i64, y: i64) -> (r: LayerVector2D)
        ensures
            r == (LayerVector2D { x, y }),
    {
        LayerVector2D { x, y }
    }

    pub fn zero() -> (r: LayerVector2D)
        ensures
            r == (LayerVector2D { x: 0i64, y: 0i64 }),
    {
        LayerVector2D { x: 0, y: 0 }
    }

    pub fn to_point(self) -> (r: LayerPoint)
        ensures
            r == (LayerPoint { x: self.x, y: self.y }),
    {
        LayerPoint { x: self.x, y: self.y }
    }

    /// The saturating component-wise sum of two displacements.
    pub open spec fn plus_spec(self, other: LayerVector2D) -> LayerVector2D {
        LayerVector2D {
            x: sadd(self.x as int, other.x as int) as i64,
            y: sadd(self.y as int, other.y as int) as i64,
        }
    }

    pub fn saturating_add(self, other: LayerVector2D) -> (r: LayerVector2D)
        ensures
            r == self.plus_spec(other),
    {
        LayerVector2D { x: sat_add64(self.x, other.x), y: sat_add64(self.y, other.y) }
    }

    /// The saturating component-wise negation of a displacement.
    pub open spec fn neg_spec(self) -> LayerVector2D {
        LayerVector2D { x: sneg(self.x as int) as i64, y: sneg(self.y as int) as i64 }
    }

    pub fn saturating_neg(self) -> (r: LayerVector2D)
        ensures
            r == self.neg_spec(),
    {
        LayerVector2D { x: sat_neg64(self.x), y: sat_neg64(self.y) }
    }
}

impl LayerRect {
    pub fn new(origin: LayerPoint, size: LayerSize) -> (r: LayerRect)
        ensures
            r == (LayerRect { origin, size }),
    {
        LayerRect { origin, size }
    }

    pub fn zero() -> (r: LayerRect)
        ensures
            r == LayerRect::zero_spec(),
    {
        LayerRect {
            origin: LayerPoint { x: 0, y: 0 },
            size: LayerSize { width: 0, height: 0 },
        }
    }

    pub open spec fn zero_spec() -> LayerRect {
        LayerRect {
            origin: LayerPoint { x: 0i64, y: 0i64 },
            size: LayerSize { width: 0i64, height: 0i64 },
        }
    }

    pub open spec fn min_x_spec(self) -> int {
        self.origin.x as int
    }

    pub open spec fn min_y_spec(self) -> int {
        self.origin.y as int
    }

    pub open spec fn max_x_spec(self) -> int {
        sadd(self.origin.x as int, self.size.width as int)
    }

    pub open spec fn max_y_spec(self) -> int {
        sadd(self.origin.y as int, self.size.height as int)
    }

    pub fn min_x(&self) -> (r: i64)
        ensures
            r as int == self.min_x_spec(),
    {
        self.origin.x
    }

    pub fn min_y(&self) -> (r: i64)
        ensures
            r as int == self.min_y_spec(),
    {
        self.origin.y
    }

    pub fn max_x(&self) -> (r: i64)
        ensures
            r as int == self.max_x_spec(),
    {
        sat_add64(self.origin.x, self.size.width)
    }

    pub fn max_y(&self) -> (r: i64)
        ensures
            r as int == self.max_y_spec(),
    {
        sat_add64(self.origin.y, self.size.height)
    }

    /// A rectangle with no area on at least one axis.
    pub open spec fn is_empty_spec(self) -> bool {
        self.size.width <= 0 || self.size.height <= 0
    }

    pub fn is_empty(&self) -> (r: bool)
        ensures
            r == self.is_empty_spec(),
    {
        self.size.width <= 0 || self.size.height <= 0
    }

    /// The rectangle moved by a displacement, edges saturating.
    pub open spec fn translate_spec(self, v: LayerVector2D) -> LayerRect {
        LayerRect {
            origin: LayerPoint {
                x: sadd(self.origin.x as int, v.x as int) as i64,
                y: sadd(self.origin.y as int, v.y as int) as i64,
            },
            size: self.size,
        }
    }

    pub fn translate(&self, v: &LayerVector2D) -> (r: LayerRect)
        ensures
            r == self.translate_spec(*v),
    {
        LayerRect {
            origin: LayerPoint {
                x: sat_add64(self.origin.x, v.x),
                y: sat_add64(self.origin.y, v.y),
            },
            size: self.size,
        }
    }

    /// The overlap of two rectangles, or the zero rectangle when they share
    /// no area. Touching edges count as no overlap.
    pub open spec fn intersection_spec(self, other: LayerRect) -> LayerRect {
        let x0 = if self.min_x_spec() >= other.min_x_spec() {
            self.min_x_spec()
        } else {
            other.min_x_spec()
        };
        let y0 = if self.min_y_spec() >= other.min_y_spec() {
            self.min_y_spec()
        } else {
            other.min_y_spec()
        };
        let x1 = if self.max_x_spec() <= other.max_x_spec() {
            self.max_x_spec()
        } else {
            other.max_x_spec()
        };
        let y1 = if self.max_y_spec() <= other.max_y_spec() {
            self.max_y_spec()
        } else {
            other.max_y_spec()
        };
        if x0 >= x1 || y0 >= y1 {
            LayerRect::zero_spec()
        } else {
            LayerRect {
                origin: LayerPoint { x: x0 as i64, y: y0 as i64 },
                size: LayerSize { width: ssub(x1, x0) as i64, height: ssub(y1, y0) as i64 },
            }
        }
    }

    pub fn intersection(&self, other: &LayerRect) -> (r: LayerRect)
        ensures
            r == self.intersection_spec(*other),
    {
        let x0 = max64(self.min_x(), other.min_x());
        let y0 = max64(self.min_y(), other.min_y());
        let x1 = min64(self.max_x(), other.max_x());
        let y1 = min64(self.max_y(), other.max_y());
        if x0 >= x1 || y0 >= y1 {
            LayerRect::zero()
        } else {
            LayerRect {
                origin: LayerPoint { x: x0, y: y0 },
                size: LayerSize { width: sat_sub64(x1, x0), height: sat_sub64(y1, y0) },
            }
        }
    }

    /// The largest representable device rectangle that keeps all of its edge
    /// coordinates away from saturation.
    pub fn max_rect() -> (r: LayerRect)
        ensures
            r == LayerRect::max_rect_spec(),
    {
        LayerRect {
            origin: LayerPoint { x: i64::MIN / 2, y: i64::MIN / 2 },
            size: LayerSize { width: i64::MAX, height: i64::MAX },
        }
    }

    pub open spec fn max_rect_spec() -> LayerRect {
        LayerRect {
            origin: LayerPoint { x: (i64::MIN / 2) as i64, y: (i64::MIN / 2) as i64 },
            size: LayerSize { width: i64::MAX, height: i64::MAX },
        }
    }
}

/// `inner` lies within `outer`: every point of `inner` is a point of
/// `outer`, with an empty `inner` lying within anything.
pub open spec fn rect_subset(inner: LayerRect, outer: LayerRect) -> bool {
    inner.is_empty_spec() || {
        &&& outer.min_x_spec() <= inner.min_x_spec()
        &&& inner.max_x_spec() <= outer.max_x_spec()
        &&& outer.min_y_spec() <= inner.min_y_spec()
        &&& inner.max_y_spec() <= outer.max_y_spec()
    }
}

/// The intersection of two rectangles lies within each of them.
pub proof fn lemma_intersection_subset(a: LayerRect, b: LayerRect)
    ensures
        rect_subset(a.intersection_spec(b), a),
        rect_subset(a.intersection_spec(b), b),
{
}

} // verus!
