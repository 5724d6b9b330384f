//! Two-dimensional affine transforms over integer layer units.
//!
//! A [`LayerTransform`] maps row vectors: a point `(x, y)` goes to
//! `(x*m11 + y*m21 + m31, x*m12 + y*m22 + m32)`, every step saturating into
//! the `i64` range. Reference frames carry such a transform; the tree walk
//! composes them, translates them by scroll offsets, and pulls viewport
//! rectangles back through them with a conservative integer footprint.

use vstd::arithmetic::div_mod::lemma_fundamental_div_mod;
use vstd::arithmetic::div_mod::lemma_fundamental_div_mod_converse;
use vstd::prelude::*;

use crate::geom::imax;
use crate::geom::imin;
use crate::geom::sadd;
use crate::geom::sat_add64;
use crate::geom::sat_i64;
use crate::geom::sat_mul64;
use crate::geom::sat_sub64;
use crate::geom::sat_to_i64;
use crate::geom::smul;
use crate::geom::ssub;
use crate::geom::LayerPoint;
use crate::geom::LayerRect;
use crate::geom::LayerSize;
use crate::geom::LayerVector2D;
use crate::geom::max64;
use crate::geom::min64;

verus! {

/// The quotient of `a` and `b` rounded toward negative infinity (0 when
/// `b == 0`).
pub open spec fn floor_div_int(a: int, b: int) -> int {
    if b > 0 {
        a / b
    } else if b < 0 {
        (-a) / (-b)
    } else {
        0
    }
}

/// The quotient of `a` and `b` rounded toward positive infinity (0 when
/// `b == 0`).
pub open spec fn ceil_div_int(a: int, b: int) -> int {
    -floor_div_int(-a, b)
}

/// Dividing a non-positive value `-na` by a positive `nb` rounds away from
/// zero exactly when `na` is not a multiple of `nb`.
proof fn lemma_neg_div(na: int, nb: int)
    requires
        0 <= na,
        0 < nb,
    ensures
        (-na) / nb == if na % nb == 0 { -(na / nb) } else { -(na / nb) - 1 },
{
    let q = na / nb;
    let r = na % nb;
    lemma_fundamental_div_mod(na, nb);
    if r == 0 {
        assert(-na == (-q) * nb + 0) by (nonlinear_arith)
            requires
                na == nb * q + r,
                r == 0,
        ;
        lemma_fundamental_div_mod_converse(-na, nb, -q, 0);
    } else {
        assert(-na == (-q - 1) * nb + (nb - r)) by (nonlinear_arith)
            requires
                na == nb * q + r,
        ;
        lemma_fundamental_div_mod_converse(-na, nb, -q - 1, nb - r);
    }
}

/// The magnitude of an `i64` value as a `u64`.
fn abs_mag(a: i64) -> (r: u64)
    ensures
        r as int == if a >= 0 { a as int } else { -(a as int) },
{
    if a >= 0 {
        a as u64
    } else {
        (-(a as i128)) as u64
    }
}

/// Floor division of `i64` values, the result saturated into `i64`.
pub fn floor_div64(a: i64, b: i64) -> (r: i64)
    requires
        b != 0,
    ensures
        r as int == sat_i64(floor_div_int(a as int, b as int)),
{
    let na = abs_mag(a);
    let nb = abs_mag(b);
    let q = na / nb;
    let rem = na % nb;
    if (a >= 0) == (b > 0) {
        proof {
            if b > 0 {
                assert(floor_div_int(a as int, b as int) == q as int);
            } else {
                assert(floor_div_int(a as int, b as int) == (-(a as int)) / (-(b as int)));
                assert((-(a as int)) / (-(b as int)) == q as int);
            }
        }
        sat_to_i64(q as i128)
    } else {
        proof {
            lemma_neg_div(na as int, nb as int);
            if b > 0 {
                assert(floor_div_int(a as int, b as int) == (-(na as int)) / (nb as int));
            } else {
                assert(floor_div_int(a as int, b as int) == (-(a as int)) / (-(b as int)));
                assert(-(a as int) == -(na as int) && -(b as int) == nb as int);
            }
        }
        if rem == 0 {
            sat_to_i64(-(q as i128))
        } else {
            sat_to_i64(-(q as i128) - 1)
        }
    }
}

/// Ceiling division of `i64` values, the result saturated into `i64`.
pub fn ceil_div64(a: i64, b: i64) -> (r: i64)
    requires
        b != 0,
    ensures
        r as int == sat_i64(ceil_div_int(a as int, b as int)),
{
    let na = abs_mag(a);
    let nb = abs_mag(b);
    let q = na / nb;
    let rem = na % nb;
    if (a >= 0) == (b > 0) {
        proof {
            lemma_neg_div(na as int, nb as int);
            if b > 0 {
                assert(floor_div_int(-(a as int), b as int) == (-(na as int)) / (nb as int));
            } else {
                assert(floor_div_int(-(a as int), b as int) == (a as int) / (-(b as int)));
                assert((a as int) / (-(b as int)) == (-(na as int)) / (nb as int));
            }
        }
        if rem == 0 {
            sat_to_i64(q as i128)
        } else {
            sat_to_i64(q as i128 + 1)
        }
    } else {
        proof {
            if b > 0 {
                assert(floor_div_int(-(a as int), b as int) == (-(a as int)) / (b as int));
                assert((-(a as int)) / (b as int) == (na as int) / (nb as int));
            } else {
                assert(floor_div_int(-(a as int), b as int) == (a as int) / (-(b as int)));
                assert((a as int) / (-(b as int)) == (na as int) / (nb as int));
            }
        }
        sat_to_i64(-(q as i128))
    }
}

/// The exact product of two `i64` values, carried in an `i128`.
pub fn mul_i128(a: i64, b: i64) -> (r: i128)
    ensures
        r as int == (a as int) * (b as int),
{
    proof {
        assert((a as int) * (b as int) <= i128::MAX as int && (a as int) * (b as int)
            >= i128::MIN as int) by (nonlinear_arith)
            requires
                i64::MIN as int <= a as int <= i64::MAX as int,
                i64::MIN as int <= b as int <= i64::MAX as int,
        ;
    }
    a as i128 * b as i128
}

/// A two-dimensional affine transform over integer layer units, mapping row
/// vectors with saturating arithmetic.
#[derive(Clone, Copy, PartialEq, Eq, Structural, Debug)]
pub struct LayerTransform {
    pub m11: i64,
    pub m12: i64,
    pub m21: i64,
    pub m22: i64,
    pub m31: i64,
    pub m32: i64,
}

/// The x coordinate of a point `(x, y)` mapped through `t`.
pub open spec fn tp_x(t: LayerTransform, x: int, y: int) -> int {
    sadd(sadd(smul(x, t.m11 as int), smul(y, t.m21 as int)), t.m31 as int)
}

/// The y coordinate of a point `(x, y)` mapped through `t`.
pub open spec fn tp_y(t: LayerTransform, x: int, y: int) -> int {
    sadd(sadd(smul(x, t.m12 as int), smul(y, t.m22 as int)), t.m32 as int)
}

/// The transform applying `first` to a point and then `second`.
pub open spec fn compose_spec(first: LayerTransform, second: LayerTransform) -> LayerTransform {
    LayerTransform {
        m11: sadd(
            smul(first.m11 as int, second.m11 as int),
            smul(first.m12 as int, second.m21 as int),
        ) as i64,
        m12: sadd(
            smul(first.m11 as int, second.m12 as int),
            smul(first.m12 as int, second.m22 as int),
        ) as i64,
        m21: sadd(
            smul(first.m21 as int, second.m11 as int),
            smul(first.m22 as int, second.m21 as int),
        ) as i64,
        m22: sadd(
            smul(first.m21 as int, second.m12 as int),
            smul(first.m22 as int, second.m22 as int),
        ) as i64,
        m31: tp_x(second, first.m31 as int, first.m32 as int) as i64,
        m32: tp_y(second, first.m31 as int, first.m32 as int) as i64,
    }
}

/// The numerator of the x coordinate of the preimage of `(cx, cy)` under
/// `t`, over the denominator `t.det_spec()`.
pub open spec fn inv_num_x(t: LayerTransform, cx: int, cy: int) -> int {
    ssub(
        smul(ssub(cx, t.m31 as int), t.m22 as int),
        smul(ssub(cy, t.m32 as int), t.m21 as int),
    )
}

/// The numerator of the y coordinate of the preimage of `(cx, cy)` under
/// `t`, over the denominator `t.det_spec()`.
pub open spec fn inv_num_y(t: LayerTransform, cx: int, cy: int) -> int {
    ssub(
        smul(ssub(cy, t.m32 as int), t.m11 as int),
        smul(ssub(cx, t.m31 as int), t.m12 as int),
    )
}

impl LayerTransform {
    pub fn identity() -> (r: LayerTransform)
        ensures
            r == LayerTransform::identity_spec(),
    {
        LayerTransform { m11: 1, m12: 0, m21: 0, m22: 1, m31: 0, m32: 0 }
    }

    pub open spec fn identity_spec() -> LayerTransform {
        LayerTransform { m11: 1i64, m12: 0i64, m21: 0i64, m22: 1i64, m31: 0i64, m32: 0i64 }
    }

    /// A pure translation by `v`.
    pub fn translation(v: LayerVector2D) -> (r: LayerTransform)
        ensures
            r == (LayerTransform {
                m11: 1i64,
                m12: 0i64,
                m21: 0i64,
                m22: 1i64,
                m31: v.x,
                m32: v.y,
            }),
    {
        LayerTransform { m11: 1, m12: 0, m21: 0, m22: 1, m31: v.x, m32: v.y }
    }

    /// The saturating determinant of the linear part.
    pub open spec fn det_spec(self) -> int {
        ssub(smul(self.m11 as int, self.m22 as int), smul(self.m12 as int, self.m21 as int))
    }

    pub fn determinant(&self) -> (r: i64)
        ensures
            r as int == self.det_spec(),
    {
        sat_sub64(sat_mul64(self.m11, self.m22), sat_mul64(self.m12, self.m21))
    }

    /// Whether mapping through the transform keeps every axis-aligned
    /// rectangle axis aligned: the linear part either is diagonal or swaps
    /// the two axes.
    pub open spec fn preserves_2d_axis_alignment_spec(self) -> bool {
        (self.m12 == 0 && self.m21 == 0) || (self.m11 == 0 && self.m22 == 0)
    }

    pub fn preserves_2d_axis_alignment(&self) -> (r: bool)
        ensures
            r == self.preserves_2d_axis_alignment_spec(),
    {
        (self.m12 == 0 && self.m21 == 0) || (self.m11 == 0 && self.m22 == 0)
    }

    pub fn transform_point(&self, p: &LayerPoint) -> (r: LayerPoint)
        ensures
            r.x as int == tp_x(*self, p.x as int, p.y as int),
            r.y as int == tp_y(*self, p.x as int, p.y as int),
    {
        LayerPoint {
            x: sat_add64(sat_add64(sat_mul64(p.x, self.m11), sat_mul64(p.y, self.m21)), self.m31),
            y: sat_add64(sat_add64(sat_mul64(p.x, self.m12), sat_mul64(p.y, self.m22)), self.m32),
        }
    }

    /// The transform translated in its source space: points are moved by `v`
    /// first, then mapped through `self`.
    pub open spec fn pre_translate_spec(self, v: LayerVector2D) -> LayerTransform {
        LayerTransform {
            m31: tp_x(self, v.x as int, v.y as int) as i64,
            m32: tp_y(self, v.x as int, v.y as int) as i64,
            ..self
        }
    }

    pub fn pre_translate(&self, v: LayerVector2D) -> (r: LayerTransform)
        ensures
            r == self.pre_translate_spec(v),
    {
        let moved = self.transform_point(&LayerPoint { x: v.x, y: v.y });
        LayerTransform { m31: moved.x, m32: moved.y, ..*self }
    }

    /// The x coordinate, saturated, of the floor of the preimage of the
    /// corner `(cx, cy)` under the transform.
    pub open spec fn preimage_floor_x(self, cx: int, cy: int) -> int {
        sat_i64(floor_div_int(inv_num_x(self, cx, cy), self.det_spec()))
    }

    pub open spec fn preimage_ceil_x(self, cx: int, cy: int) -> int {
        sat_i64(ceil_div_int(inv_num_x(self, cx, cy), self.det_spec()))
    }

    pub open spec fn preimage_floor_y(self, cx: int, cy: int) -> int {
        sat_i64(floor_div_int(inv_num_y(self, cx, cy), self.det_spec()))
    }

    pub open spec fn preimage_ceil_y(self, cx: int, cy: int) -> int {
        sat_i64(ceil_div_int(inv_num_y(self, cx, cy), self.det_spec()))
    }

    /// An axis-aligned rectangle covering the preimages of the four corners
    /// of `rect` under the transform, each preimage coordinate rounded
    /// outward; the zero rectangle when the transform is singular.
    pub open spec fn inverse_rect_footprint_spec(self, rect: LayerRect) -> LayerRect {
        if self.det_spec() == 0 {
            LayerRect::zero_spec()
        } else {
            let x0 = rect.min_x_spec();
            let y0 = rect.min_y_spec();
            let x1 = rect.max_x_spec();
            let y1 = rect.max_y_spec();
            let lo_x = imin(
                imin(self.preimage_floor_x(x0, y0), self.preimage_floor_x(x1, y0)),
                imin(self.preimage_floor_x(x0, y1), self.preimage_floor_x(x1, y1)),
            );
            let hi_x = imax(
                imax(self.preimage_ceil_x(x0, y0), self.preimage_ceil_x(x1, y0)),
                imax(self.preimage_ceil_x(x0, y1), self.preimage_ceil_x(x1, y1)),
            );
            let lo_y = imin(
                imin(self.preimage_floor_y(x0, y0), self.preimage_floor_y(x1, y0)),
                imin(self.preimage_floor_y(x0, y1), self.preimage_floor_y(x1, y1)),
            );
            let hi_y = imax(
                imax(self.preimage_ceil_y(x0, y0), self.preimage_ceil_y(x1, y0)),
                imax(self.preimage_ceil_y(x0, y1), self.preimage_ceil_y(x1, y1)),
            );
            LayerRect {
                origin: LayerPoint { x: lo_x as i64, y: lo_y as i64 },
                size: LayerSize { width: ssub(hi_x, lo_x) as i64, height: ssub(hi_y, lo_y) as i64 },
            }
        }
    }

    /// The numerators of the preimage of `(cx, cy)`, over the denominator
    /// `self.det_spec()`.
    fn preimage_nums(&self, cx: i64, cy: i64) -> (r: (i64, i64))
        ensures
            r.0 as int == inv_num_x(*self, cx as int, cy as int),
            r.1 as int == inv_num_y(*self, cx as int, cy as int),
    {
        let dx = sat_sub64(cx, self.m31);
        let dy = sat_sub64(cy, self.m32);
        (
            sat_sub64(sat_mul64(dx, self.m22), sat_mul64(dy, self.m21)),
            sat_sub64(sat_mul64(dy, self.m11), sat_mul64(dx, self.m12)),
        )
    }

    /// Pulls `rect` back through the transform: the corners of `rect` are
    /// inverse-mapped and rounded outward into a covering rectangle. A
    /// singular transform gives the zero rectangle.
    pub fn inverse_rect_footprint(&self, rect: &LayerRect) -> (r: LayerRect)
        ensures
            r == self.inverse_rect_footprint_spec(*rect),
    {
        let det = self.determinant();
        if det == 0 {
            return LayerRect::zero();
        }
        let x0 = rect.min_x();
        let y0 = rect.min_y();
        let x1 = rect.max_x();
        let y1 = rect.max_y();
        let (nx00, ny00) = self.preimage_nums(x0, y0);
        let (nx10, ny10) = self.preimage_nums(x1, y0);
        let (nx01, ny01) = self.preimage_nums(x0, y1);
        let (nx11, ny11) = self.preimage_nums(x1, y1);
        let lo_x = min64(
            min64(floor_div64(nx00, det), floor_div64(nx10, det)),
            min64(floor_div64(nx01, det), floor_div64(nx11, det)),
        );
        let hi_x = max64(
            max64(ceil_div64(nx00, det), ceil_div64(nx10, det)),
            max64(ceil_div64(nx01, det), ceil_div64(nx11, det)),
        );
        let lo_y = min64(
            min64(floor_div64(ny00, det), floor_div64(ny10, det)),
            min64(floor_div64(ny01, det), floor_div64(ny11, det)),
        );
        let hi_y = max64(
            max64(ceil_div64(ny00, det), ceil_div64(ny10, det)),
            max64(ceil_div64(ny01, det), ceil_div64(ny11, det)),
        );
        LayerRect {
            origin: LayerPoint { x: lo_x, y: lo_y },
            size: LayerSize { width: sat_sub64(hi_x, lo_x), height: sat_sub64(hi_y, lo_y) },
        }
    }

    /// Whether the preimage of `p` under the transform lies in `rect`
    /// (edges inclusive), compared exactly as rationals over the
    /// determinant. A singular transform has no preimage.
    pub open spec fn preimage_in_rect_spec(self, rect: LayerRect, p: LayerPoint) -> bool {
        let det = self.det_spec();
        let nx = inv_num_x(self, p.x as int, p.y as int);
        let ny = inv_num_y(self, p.x as int, p.y as int);
        det != 0 && if det > 0 {
            &&& rect.min_x_spec() * det <= nx <= rect.max_x_spec() * det
            &&& rect.min_y_spec() * det <= ny <= rect.max_y_spec() * det
        } else {
            &&& rect.min_x_spec() * det >= nx >= rect.max_x_spec() * det
            &&& rect.min_y_spec() * det >= ny >= rect.max_y_spec() * det
        }
    }

    pub fn preimage_in_rect(&self, rect: &LayerRect, p: &LayerPoint) -> (r: bool)
        ensures
            r == self.preimage_in_rect_spec(*rect, *p),
    {
        let det = self.determinant();
        if det == 0 {
            return false;
        }
        let (nx, ny) = self.preimage_nums(p.x, p.y);
        let nx = nx as i128;
        let ny = ny as i128;
        if det > 0 {
            mul_i128(rect.min_x(), det) <= nx && nx <= mul_i128(rect.max_x(), det) && mul_i128(
                rect.min_y(),
                det,
            ) <= ny && ny <= mul_i128(rect.max_y(), det)
        } else {
            mul_i128(rect.min_x(), det) >= nx && nx >= mul_i128(rect.max_x(), det) && mul_i128(
                rect.min_y(),
                det,
            ) >= ny && ny >= mul_i128(rect.max_y(), det)
        }
    }

    /// The composition in which `first` is applied to points before `self`.
    pub fn pre_mul(&self, first: &LayerTransform) -> (r: LayerTransform)
        ensures
            r == compose_spec(*first, *self),
    {
        LayerTransform {
            m11: sat_add64(sat_mul64(first.m11, self.m11), sat_mul64(first.m12, self.m21)),
            m12: sat_add64(sat_mul64(first.m11, self.m12), sat_mul64(first.m12, self.m22)),
            m21: sat_add64(sat_mul64(first.m21, self.m11), sat_mul64(first.m22, self.m21)),
            m22: sat_add64(sat_mul64(first.m21, self.m12), sat_mul64(first.m22, self.m22)),
            m31: sat_add64(
                sat_add64(sat_mul64(first.m31, self.m11), sat_mul64(first.m32, self.m21)),
                self.m31,
            ),
            m32: sat_add64(
                sat_add64(sat_mul64(first.m31, self.m12), sat_mul64(first.m32, self.m22)),
                self.m32,
            ),
        }
    }
}

} // verus!
