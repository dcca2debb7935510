//! Fixed-point transform tests.

use ds2d::graphics::transform::{rotate, scale, translate, Mat3, Rotation, Vec2};

fn fx(v: f64) -> i64 {
    (v * 65536.0).round() as i64
}

#[test]
fn test_translate() {
    let t = translate(Vec2 { x: fx(7.0), y: fx(-3.0) });
    let x = Vec2 { x: fx(5.0), y: fx(2.0) };
    let tx = Vec2 { x: fx(12.0), y: fx(-1.0) };
    assert_eq!(t.apply(x), tx);
}

#[test]
fn test_scale() {
    let t = scale(Vec2 { x: fx(2.0), y: fx(-4.0) });
    let x = Vec2 { x: fx(-3.0), y: fx(2.0) };
    let tx = Vec2 { x: fx(-6.0), y: fx(-8.0) };
    assert_eq!(t.apply(x), tx);
}

#[test]
fn test_rotate_quarter_turn() {
    // cos 90 deg = 0, sin 90 deg = 1: (1, 0) maps to (0, 1).
    let t = rotate(Rotation { cos: 0, sin: fx(1.0) });
    let x = Vec2 { x: fx(1.0), y: 0 };
    assert_eq!(t.apply(x), Vec2 { x: 0, y: fx(1.0) });
}

#[test]
fn test_identity_fixes_points() {
    let t = Mat3::identity();
    let x = Vec2 { x: fx(123.25), y: fx(-7.5) };
    assert_eq!(t.apply(x), x);
}

#[test]
fn test_compose_translations_adds_offsets() {
    let a = translate(Vec2 { x: fx(1.0), y: fx(2.0) });
    let b = translate(Vec2 { x: fx(10.0), y: fx(20.0) });
    let c = a.compose(&b);
    let p = c.apply(Vec2 { x: 0, y: 0 });
    assert_eq!(p, Vec2 { x: fx(11.0), y: fx(22.0) });
}

#[test]
fn test_rotation_zero_is_identity_map() {
    let t = rotate(Rotation::zero());
    let x = Vec2 { x: fx(3.0), y: fx(4.0) };
    assert_eq!(t.apply(x), x);
}
