//! Axis-aligned rectangles over fixed-point scalars.

use vstd::prelude::*;

use crate::fixed::{fx_mul, fx_mul_int, lemma_fx_mul_bound, tdiv, FX_ONE};
use crate::graphics::transform::{
    mat_apply_spec, rotate, rotate_spec, vec2_bounded, Rotation, Vec2, Vec2Spec, MAT_ENTRY_MAX,
};

verus! {

/// Magnitude bound under which the additive rectangle operations cannot
/// overflow.
pub const RECT_ADD_MAX: i64 = 0x2000_0000_0000_0000;

/// An axis-aligned rectangle.
#[derive(Debug, Clone, Copy, PartialEq, Eq, Structural)]
pub struct Rect {
    pub top_left: Vec2,
    pub bottom_right: Vec2,
}

/// The mathematical value of a [`Rect`].
pub ghost struct RectSpec {
    pub top_left: Vec2Spec,
    pub bottom_right: Vec2Spec,
}

impl View for Rect {
    type V = RectSpec;

    open spec fn view(&self) -> RectSpec {
        RectSpec { top_left: self.top_left@, bottom_right: self.bottom_right@ }
    }
}

/// Whether all four rectangle coordinates have magnitude at most `b`.
pub open spec fn rect_bounded(r: RectSpec, b: int) -> bool {
    vec2_bounded(r.top_left, b) && vec2_bounded(r.bottom_right, b)
}

impl Rect {
    /// Return the four corner coordinates in clockwise order starting at
    /// the top-left.
    pub fn corners(&self) -> (c: [Vec2; 4])
        ensures
            c[0] == self.top_left,
            c[1] == (Vec2 { x: self.bottom_right.x, y: self.top_left.y }),
            c[2] == self.bottom_right,
            c[3] == (Vec2 { x: self.top_left.x, y: self.bottom_right.y }),
    {
        [
            self.top_left,
            Vec2 { x: self.bottom_right.x, y: self.top_left.y },
            self.bottom_right,
            Vec2 { x: self.top_left.x, y: self.bottom_right.y },
        ]
    }

    /// The unit square in the positive quadrant of the cartesian plane.
    pub fn unit_square() -> (r: Rect)
        ensures
            r@ == (RectSpec {
                top_left: Vec2Spec { x: 0, y: 0 },
                bottom_right: Vec2Spec { x: 65536, y: 65536 },
            }),
    {
        Rect {
            top_left: Vec2 { x: 0, y: 0 },
            bottom_right: Vec2 { x: FX_ONE, y: FX_ONE },
        }
    }

    /// In a coordinate system where negative Y points up and negative X
    /// points left, create a rectangle from its center point and size.
    /// The half-size rounds toward zero.
    pub fn from_center_size(center: Vec2, size: Vec2) -> (r: Rect)
        requires
            vec2_bounded(center@, RECT_ADD_MAX as int),
            vec2_bounded(size@, RECT_ADD_MAX as int),
        ensures
            r@.top_left.x == center@.x - tdiv(size@.x, 2),
            r@.top_left.y == center@.y - tdiv(size@.y, 2),
            r@.bottom_right.x == center@.x + tdiv(size@.x, 2),
            r@.bottom_right.y == center@.y + tdiv(size@.y, 2),
    {
        let hx = half(size.x);
        let hy = half(size.y);
        Rect {
            top_left: Vec2 { x: center.x - hx, y: center.y - hy },
            bottom_right: Vec2 { x: center.x + hx, y: center.y + hy },
        }
    }

    /// The size of the rectangle: bottom-right minus top-left.
    pub fn size(&self) -> (s: Vec2)
        requires
            rect_bounded(self@, RECT_ADD_MAX as int),
        ensures
            s@.x == self@.bottom_right.x - self@.top_left.x,
            s@.y == self@.bottom_right.y - self@.top_left.y,
    {
        Vec2 {
            x: self.bottom_right.x - self.top_left.x,
            y: self.bottom_right.y - self.top_left.y,
        }
    }

    /// The center of the rectangle; each coordinate rounds toward zero.
    pub fn center(&self) -> (c: Vec2)
        requires
            rect_bounded(self@, RECT_ADD_MAX as int),
        ensures
            c@.x == tdiv(self@.top_left.x + self@.bottom_right.x, 2),
            c@.y == tdiv(self@.top_left.y + self@.bottom_right.y, 2),
    {
        Vec2 {
            x: half(self.top_left.x + self.bottom_right.x),
            y: half(self.top_left.y + self.bottom_right.y),
        }
    }

    /// The rectangle moved by `offset`.
    pub fn translated(self, offset: Vec2) -> (r: Rect)
        requires
            rect_bounded(self@, RECT_ADD_MAX as int),
            vec2_bounded(offset@, RECT_ADD_MAX as int),
        ensures
            r@.top_left.x == self@.top_left.x + offset@.x,
            r@.top_left.y == self@.top_left.y + offset@.y,
            r@.bottom_right.x == self@.bottom_right.x + offset@.x,
            r@.bottom_right.y == self@.bottom_right.y + offset@.y,
    {
        Rect {
            top_left: Vec2 { x: self.top_left.x + offset.x, y: self.top_left.y + offset.y },
            bottom_right: Vec2 {
                x: self.bottom_right.x + offset.x,
                y: self.bottom_right.y + offset.y,
            },
        }
    }

    /// A rectangle with the same center whose size is scaled by `factor`.
    pub fn scaled_around_center(self, factor: i64) -> (r: Rect)
        requires
            rect_bounded(self@, MAT_ENTRY_MAX as int),
            -MAT_ENTRY_MAX <= factor <= MAT_ENTRY_MAX,
        ensures
            r@.top_left.x == tdiv(self@.top_left.x + self@.bottom_right.x, 2) - tdiv(
                fx_mul_int(self@.bottom_right.x - self@.top_left.x, factor as int),
                2,
            ),
            r@.top_left.y == tdiv(self@.top_left.y + self@.bottom_right.y, 2) - tdiv(
                fx_mul_int(self@.bottom_right.y - self@.top_left.y, factor as int),
                2,
            ),
            r@.bottom_right.x == tdiv(self@.top_left.x + self@.bottom_right.x, 2) + tdiv(
                fx_mul_int(self@.bottom_right.x - self@.top_left.x, factor as int),
                2,
            ),
            r@.bottom_right.y == tdiv(self@.top_left.y + self@.bottom_right.y, 2) + tdiv(
                fx_mul_int(self@.bottom_right.y - self@.top_left.y, factor as int),
                2,
            ),
    {
        proof {
            lemma_fx_mul_bound(
                self@.bottom_right.x - self@.top_left.x,
                factor as int,
                2 * MAT_ENTRY_MAX as int,
                MAT_ENTRY_MAX as int,
            );
            lemma_fx_mul_bound(
                self@.bottom_right.y - self@.top_left.y,
                factor as int,
                2 * MAT_ENTRY_MAX as int,
                MAT_ENTRY_MAX as int,
            );
        }
        let size = self.size();
        let new_size = Vec2 { x: fx_mul(size.x, factor), y: fx_mul(size.y, factor) };
        Rect::from_center_size(self.center(), new_size)
    }

    /// Return a rectangle with the given size that is centered on the
    /// current rectangle.
    pub fn centered(&self, size: Vec2) -> (r: Rect)
        requires
            rect_bounded(self@, RECT_ADD_MAX as int),
            vec2_bounded(size@, RECT_ADD_MAX as int),
        ensures
            r@.top_left.x == tdiv(self@.top_left.x + self@.bottom_right.x, 2) - tdiv(size@.x, 2),
            r@.top_left.y == tdiv(self@.top_left.y + self@.bottom_right.y, 2) - tdiv(size@.y, 2),
            r@.bottom_right.x == tdiv(self@.top_left.x + self@.bottom_right.x, 2) + tdiv(
                size@.x,
                2,
            ),
            r@.bottom_right.y == tdiv(self@.top_left.y + self@.bottom_right.y, 2) + tdiv(
                size@.y,
                2,
            ),
    {
        Rect::from_center_size(self.center(), size)
    }

    /// Return the four corner coordinates in clockwise order starting at
    /// the top-left, rotated by the angle implicitly given by its sine
    /// and cosine around the origin given in relative coordinates.
    pub fn rotated_corners(&self, origin: Vec2, rot: Rotation) -> (c: [Vec2; 4])
        requires
            rect_bounded(self@, 0x20_0000_0000),
            vec2_bounded(origin@, 0x1_0000),
            -0x2_0000 <= rot.cos <= 0x2_0000,
            -0x2_0000 <= rot.sin <= 0x2_0000,
        ensures
            c[0]@ == rotated_corner_spec(self@, origin@, rot.cos as int, rot.sin as int, 0),
            c[1]@ == rotated_corner_spec(self@, origin@, rot.cos as int, rot.sin as int, 1),
            c[2]@ == rotated_corner_spec(self@, origin@, rot.cos as int, rot.sin as int, 2),
            c[3]@ == rotated_corner_spec(self@, origin@, rot.cos as int, rot.sin as int, 3),
    {
        proof {
            lemma_fx_mul_bound(
                self@.bottom_right.x - self@.top_left.x,
                origin@.x,
                0x40_0000_0000,
                0x1_0000,
            );
            lemma_fx_mul_bound(
                self@.bottom_right.y - self@.top_left.y,
                origin@.y,
                0x40_0000_0000,
                0x1_0000,
            );
            lemma_fx_mul_bound(
                self@.bottom_right.x - self@.top_left.x,
                65536 - origin@.x,
                0x40_0000_0000,
                0x2_0000,
            );
            lemma_fx_mul_bound(
                self@.bottom_right.y - self@.top_left.y,
                65536 - origin@.y,
                0x40_0000_0000,
                0x2_0000,
            );
        }
        let size = self.size();
        let origin_rel = Vec2 { x: fx_mul(size.x, origin.x), y: fx_mul(size.y, origin.y) };
        let origin_absolute = Vec2 {
            x: self.top_left.x + origin_rel.x,
            y: self.top_left.y + origin_rel.y,
        };
        let top_left_relative = Vec2 { x: -origin_rel.x, y: -origin_rel.y };
        let bottom_right_relative = Vec2 {
            x: fx_mul(size.x, FX_ONE - origin.x),
            y: fx_mul(size.y, FX_ONE - origin.y),
        };
        let top_right_relative = Vec2 { x: bottom_right_relative.x, y: top_left_relative.y };
        let bottom_left_relative = Vec2 { x: top_left_relative.x, y: bottom_right_relative.y };

        let transform = rotate(rot);

        let top_left = offset_apply(origin_absolute, &transform, top_left_relative);
        let top_right = offset_apply(origin_absolute, &transform, top_right_relative);
        let bottom_right = offset_apply(origin_absolute, &transform, bottom_right_relative);
        let bottom_left = offset_apply(origin_absolute, &transform, bottom_left_relative);

        [top_left, top_right, bottom_right, bottom_left]
    }
}

/// The corner with index `i` (clockwise from the top-left) of `r` after
/// rotation by (`cos`, `sin`) around the relative origin `origin`.
pub open spec fn rotated_corner_spec(r: RectSpec, origin: Vec2Spec, cos: int, sin: int, i: int) -> Vec2Spec {
    let sx = r.bottom_right.x - r.top_left.x;
    let sy = r.bottom_right.y - r.top_left.y;
    let ox = fx_mul_int(sx, origin.x);
    let oy = fx_mul_int(sy, origin.y);
    let abs_x = r.top_left.x + ox;
    let abs_y = r.top_left.y + oy;
    let rel = if i == 0 {
        Vec2Spec { x: -ox, y: -oy }
    } else if i == 1 {
        Vec2Spec { x: fx_mul_int(sx, 65536 - origin.x), y: -oy }
    } else if i == 2 {
        Vec2Spec { x: fx_mul_int(sx, 65536 - origin.x), y: fx_mul_int(sy, 65536 - origin.y) }
    } else {
        Vec2Spec { x: -ox, y: fx_mul_int(sy, 65536 - origin.y) }
    };
    let rotated = mat_apply_spec(rotate_spec(cos, sin), rel);
    Vec2Spec { x: abs_x + rotated.x, y: abs_y + rotated.y }
}

/// Applies `m` to `v` and then offsets the result by `base`.
fn offset_apply(base: Vec2, m: &crate::graphics::transform::Mat3, v: Vec2) -> (r: Vec2)
    requires
        crate::graphics::transform::mat3_bounded(m@, 0x2_0000),
        vec2_bounded(v@, 0x80_0000_0000),
        vec2_bounded(base@, 0x2000_0000_0000_0000),
        m@.tx == 0,
        m@.ty == 0,
    ensures
        r@.x == base@.x + mat_apply_spec(m@, v@).x,
        r@.y == base@.y + mat_apply_spec(m@, v@).y,
{
    proof {
        lemma_fx_mul_bound(m@.xx, v@.x, 0x2_0000, 0x80_0000_0000);
        lemma_fx_mul_bound(m@.xy, v@.y, 0x2_0000, 0x80_0000_0000);
        lemma_fx_mul_bound(m@.yx, v@.x, 0x2_0000, 0x80_0000_0000);
        lemma_fx_mul_bound(m@.yy, v@.y, 0x2_0000, 0x80_0000_0000);
    }
    let px = fx_mul(m.xx, v.x) + fx_mul(m.xy, v.y);
    let py = fx_mul(m.yx, v.x) + fx_mul(m.yy, v.y);
    Vec2 { x: base.x + px, y: base.y + py }
}

/// Divides a scalar by two, rounding toward zero.
fn half(v: i64) -> (r: i64)
    requires
        -0x4000_0000_0000_0000 <= v <= 0x4000_0000_0000_0000,
    ensures
        r as int == tdiv(v as int, 2),
{
    if v >= 0 {
        (v as u64 / 2) as i64
    } else {
        -(((-v) as u64 / 2) as i64)
    }
}

} // verus!
