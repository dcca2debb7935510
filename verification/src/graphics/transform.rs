//! Affine 2D transformation matrices over fixed-point scalars.
//!
//! A [`Mat3`] stands for the 3x3 matrix
//! `[[xx, xy, tx], [yx, yy, ty], [0, 0, 1]]`, the general affine map of
//! the plane. Composition and application round each scalar product
//! toward zero, exactly as [`crate::fixed::fx_mul_int`] states.

use vstd::prelude::*;

use crate::fixed::{fx_mul, fx_mul_int, lemma_fx_mul_bound, FX_ONE};

verus! {

/// Largest entry magnitude accepted by [`Mat3::compose`] and
/// [`Mat3::apply`]; keeps every intermediate sum inside `i64`.
pub const MAT_ENTRY_MAX: i64 = 0x40_0000_0000;

/// A two-dimensional vector of fixed-point scalars.
#[derive(Clone, Copy, Debug, PartialEq, Eq, Structural)]
pub struct Vec2 {
    pub x: i64,
    pub y: i64,
}

/// The mathematical value of a [`Vec2`].
pub ghost struct Vec2Spec {
    pub x: int,
    pub y: int,
}

impl View for Vec2 {
    type V = Vec2Spec;

    open spec fn view(&self) -> Vec2Spec {
        Vec2Spec { x: self.x as int, y: self.y as int }
    }
}

impl Vec2 {
    /// Builds a vector from its two components.
    pub fn new(x: i64, y: i64) -> (r: Vec2)
        ensures
            r@ == (Vec2Spec { x: x as int, y: y as int }),
    {
        Vec2 { x, y }
    }
}

/// A rotation given by the cosine and sine of its angle, as fixed-point
/// scalars. Trigonometry happens outside the library; the matrix logic
/// holds for any pair of scalars.
#[derive(Clone, Copy, Debug, PartialEq, Eq, Structural)]
pub struct Rotation {
    pub cos: i64,
    pub sin: i64,
}

impl Rotation {
    /// The rotation by zero: cosine one, sine zero.
    pub fn zero() -> (r: Rotation)
        ensures
            r.cos == FX_ONE,
            r.sin == 0,
    {
        Rotation { cos: FX_ONE, sin: 0 }
    }
}

/// An affine transformation of the plane.
#[derive(Clone, Copy, Debug)]
pub struct Mat3 {
    pub xx: i64,
    pub xy: i64,
    pub tx: i64,
    pub yx: i64,
    pub yy: i64,
    pub ty: i64,
}

/// The mathematical value of a [`Mat3`].
pub ghost struct Mat3Spec {
    pub xx: int,
    pub xy: int,
    pub tx: int,
    pub yx: int,
    pub yy: int,
    pub ty: int,
}

impl View for Mat3 {
    type V = Mat3Spec;

    open spec fn view(&self) -> Mat3Spec {
        Mat3Spec {
            xx: self.xx as int,
            xy: self.xy as int,
            tx: self.tx as int,
            yx: self.yx as int,
            yy: self.yy as int,
            ty: self.ty as int,
        }
    }
}

impl PartialEq for Mat3 {
    fn eq(&self, other: &Mat3) -> (r: bool)
        ensures
            r == (self@ == other@),
    {
        let r = self.xx == other.xx && self.xy == other.xy && self.tx == other.tx && self.yx
            == other.yx && self.yy == other.yy && self.ty == other.ty;
        proof {
            if r {
                assert(self@ == other@);
            }
        }
        r
    }
}

impl vstd::std_specs::cmp::PartialEqSpecImpl for Mat3 {
    open spec fn obeys_eq_spec() -> bool {
        true
    }

    open spec fn eq_spec(&self, other: &Mat3) -> bool {
        self@ == other@
    }
}

impl Eq for Mat3 {

}

/// Whether every entry of `m` has magnitude at most `b`.
pub open spec fn mat3_bounded(m: Mat3Spec, b: int) -> bool {
    &&& -b <= m.xx <= b
    &&& -b <= m.xy <= b
    &&& -b <= m.tx <= b
    &&& -b <= m.yx <= b
    &&& -b <= m.yy <= b
    &&& -b <= m.ty <= b
}

/// Whether both components of `v` have magnitude at most `b`.
pub open spec fn vec2_bounded(v: Vec2Spec, b: int) -> bool {
    &&& -b <= v.x <= b
    &&& -b <= v.y <= b
}

/// The translation by `offset`.
pub open spec fn translate_spec(offset: Vec2Spec) -> Mat3Spec {
    Mat3Spec { xx: 65536, xy: 0, tx: offset.x, yx: 0, yy: 65536, ty: offset.y }
}

/// The axis-aligned scaling by `factors`.
pub open spec fn scale_spec(factors: Vec2Spec) -> Mat3Spec {
    Mat3Spec { xx: factors.x, xy: 0, tx: 0, yx: 0, yy: factors.y, ty: 0 }
}

/// The rotation with the given cosine and sine.
pub open spec fn rotate_spec(cos: int, sin: int) -> Mat3Spec {
    Mat3Spec { xx: cos, xy: -sin, tx: 0, yx: sin, yy: cos, ty: 0 }
}

/// The identity transformation.
pub open spec fn identity_spec() -> Mat3Spec {
    Mat3Spec { xx: 65536, xy: 0, tx: 0, yx: 0, yy: 65536, ty: 0 }
}

/// The fixed-point product of two affine matrices.
pub open spec fn mat_mul_spec(a: Mat3Spec, b: Mat3Spec) -> Mat3Spec {
    Mat3Spec {
        xx: fx_mul_int(a.xx, b.xx) + fx_mul_int(a.xy, b.yx),
        xy: fx_mul_int(a.xx, b.xy) + fx_mul_int(a.xy, b.yy),
        tx: fx_mul_int(a.xx, b.tx) + fx_mul_int(a.xy, b.ty) + a.tx,
        yx: fx_mul_int(a.yx, b.xx) + fx_mul_int(a.yy, b.yx),
        yy: fx_mul_int(a.yx, b.xy) + fx_mul_int(a.yy, b.yy),
        ty: fx_mul_int(a.yx, b.tx) + fx_mul_int(a.yy, b.ty) + a.ty,
    }
}

/// The fixed-point application of `m` to the point `v`.
pub open spec fn mat_apply_spec(m: Mat3Spec, v: Vec2Spec) -> Vec2Spec {
    Vec2Spec {
        x: fx_mul_int(m.xx, v.x) + fx_mul_int(m.xy, v.y) + m.tx,
        y: fx_mul_int(m.yx, v.x) + fx_mul_int(m.yy, v.y) + m.ty,
    }
}

/// Bounds one matrix entry product; helper for the exec matrix routines.
proof fn lemma_entry_bound(a: int, b: int)
    requires
        -0x40_0000_0000 <= a <= 0x40_0000_0000,
        -0x40_0000_0000 <= b <= 0x40_0000_0000,
    ensures
        -0x1000_0000_0000_0000 <= fx_mul_int(a, b) <= 0x1000_0000_0000_0000,
{
    lemma_fx_mul_bound(a, b, 0x40_0000_0000, 0x40_0000_0000);
}

/// A matrix mapping each point `p` to `p + offset`.
pub fn translate(offset: Vec2) -> (r: Mat3)
    ensures
        r@ == translate_spec(offset@),
{
    Mat3 { xx: FX_ONE, xy: 0, tx: offset.x, yx: 0, yy: FX_ONE, ty: offset.y }
}

/// A matrix scaling the two axes by `factors`.
pub fn scale(factors: Vec2) -> (r: Mat3)
    ensures
        r@ == scale_spec(factors@),
{
    Mat3 { xx: factors.x, xy: 0, tx: 0, yx: 0, yy: factors.y, ty: 0 }
}

/// A matrix rotating around the origin by the given rotation.
pub fn rotate(rot: Rotation) -> (r: Mat3)
    requires
        -MAT_ENTRY_MAX <= rot.cos <= MAT_ENTRY_MAX,
        -MAT_ENTRY_MAX <= rot.sin <= MAT_ENTRY_MAX,
    ensures
        r@ == rotate_spec(rot.cos as int, rot.sin as int),
{
    Mat3 { xx: rot.cos, xy: -rot.sin, tx: 0, yx: rot.sin, yy: rot.cos, ty: 0 }
}

impl Mat3 {
    /// The identity transformation.
    pub fn identity() -> (r: Mat3)
        ensures
            r@ == identity_spec(),
    {
        Mat3 { xx: FX_ONE, xy: 0, tx: 0, yx: 0, yy: FX_ONE, ty: 0 }
    }

    /// The matrix applying `other` first and `self` second.
    pub fn compose(&self, other: &Mat3) -> (r: Mat3)
        requires
            mat3_bounded(self@, MAT_ENTRY_MAX as int),
            mat3_bounded(other@, MAT_ENTRY_MAX as int),
        ensures
            r@ == mat_mul_spec(self@, other@),
    {
        proof {
            lemma_entry_bound(self.xx as int, other.xx as int);
            lemma_entry_bound(self.xy as int, other.yx as int);
            lemma_entry_bound(self.xx as int, other.xy as int);
            lemma_entry_bound(self.xy as int, other.yy as int);
            lemma_entry_bound(self.xx as int, other.tx as int);
            lemma_entry_bound(self.xy as int, other.ty as int);
            lemma_entry_bound(self.yx as int, other.xx as int);
            lemma_entry_bound(self.yy as int, other.yx as int);
            lemma_entry_bound(self.yx as int, other.xy as int);
            lemma_entry_bound(self.yy as int, other.yy as int);
            lemma_entry_bound(self.yx as int, other.tx as int);
            lemma_entry_bound(self.yy as int, other.ty as int);
        }
        Mat3 {
            xx: fx_mul(self.xx, other.xx) + fx_mul(self.xy, other.yx),
            xy: fx_mul(self.xx, other.xy) + fx_mul(self.xy, other.yy),
            tx: fx_mul(self.xx, other.tx) + fx_mul(self.xy, other.ty) + self.tx,
            yx: fx_mul(self.yx, other.xx) + fx_mul(self.yy, other.yx),
            yy: fx_mul(self.yx, other.xy) + fx_mul(self.yy, other.yy),
            ty: fx_mul(self.yx, other.tx) + fx_mul(self.yy, other.ty) + self.ty,
        }
    }

    /// The image of the point `v` under this transformation.
    pub fn apply(&self, v: Vec2) -> (r: Vec2)
        requires
            mat3_bounded(self@, MAT_ENTRY_MAX as int),
            vec2_bounded(v@, MAT_ENTRY_MAX as int),
        ensures
            r@ == mat_apply_spec(self@, v@),
    {
        proof {
            lemma_entry_bound(self.xx as int, v.x as int);
            lemma_entry_bound(self.xy as int, v.y as int);
            lemma_entry_bound(self.yx as int, v.x as int);
            lemma_entry_bound(self.yy as int, v.y as int);
        }
        Vec2 {
            x: fx_mul(self.xx, v.x) + fx_mul(self.xy, v.y) + self.tx,
            y: fx_mul(self.yx, v.x) + fx_mul(self.yy, v.y) + self.ty,
        }
    }
}

} // verus!
