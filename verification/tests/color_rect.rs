//! Color quantization and rectangle tests.

use ds2d::graphics::color::Color;
use ds2d::graphics::rect::Rect;
use ds2d::graphics::transform::{Rotation, Vec2};

fn fx(v: f64) -> i64 {
    (v * 65536.0).round() as i64
}

#[test]
fn test_color_quantization_clamps() {
    let c = Color::from_rgba(fx(1.5), fx(-0.5), fx(0.5), fx(1.0));
    assert_eq!(c.to_rgba_u8(), [255, 0, 127, 255]);
}

#[test]
fn test_color_byte_round_trip() {
    // Every 8-bit component survives the byte-to-fixed-to-byte round
    // trip exactly.
    for b in 0..=255u8 {
        let c = Color::from_rgba_u8(b, b, b, b);
        assert_eq!(c.to_rgba_u8(), [b, b, b, b]);
    }
}

#[test]
fn test_color_constants() {
    assert_eq!(Color::white().to_rgba_u8(), [255, 255, 255, 255]);
    assert_eq!(Color::black().to_rgba_u8(), [0, 0, 0, 255]);
    assert_eq!(Color::red().to_rgba_u8(), [255, 0, 0, 255]);
    assert_eq!(Color::cornflower_blue().to_rgba_u8(), [100, 149, 237, 255]);
}

#[test]
fn test_rect_center_and_size() {
    let r = Rect {
        top_left: Vec2 { x: fx(2.0), y: fx(4.0) },
        bottom_right: Vec2 { x: fx(6.0), y: fx(10.0) },
    };
    assert_eq!(r.size(), Vec2 { x: fx(4.0), y: fx(6.0) });
    assert_eq!(r.center(), Vec2 { x: fx(4.0), y: fx(7.0) });
    let moved = r.translated(Vec2 { x: fx(1.0), y: fx(-1.0) });
    assert_eq!(moved.top_left, Vec2 { x: fx(3.0), y: fx(3.0) });
}

#[test]
fn test_rect_from_center_size() {
    let r = Rect::from_center_size(
        Vec2 { x: fx(0.0), y: fx(0.0) },
        Vec2 { x: fx(2.0), y: fx(4.0) },
    );
    assert_eq!(r.top_left, Vec2 { x: fx(-1.0), y: fx(-2.0) });
    assert_eq!(r.bottom_right, Vec2 { x: fx(1.0), y: fx(2.0) });
}

#[test]
fn test_rect_corners_clockwise() {
    let r = Rect::unit_square();
    let c = r.corners();
    assert_eq!(c[0], Vec2 { x: 0, y: 0 });
    assert_eq!(c[1], Vec2 { x: 65536, y: 0 });
    assert_eq!(c[2], Vec2 { x: 65536, y: 65536 });
    assert_eq!(c[3], Vec2 { x: 0, y: 65536 });
}

#[test]
fn test_rect_rotated_corners_quarter_turn() {
    // Rotating the unit square a quarter turn around its top-left
    // corner: (1, 0) lands at (0, 1).
    let r = Rect::unit_square();
    let c = r.rotated_corners(Vec2 { x: 0, y: 0 }, Rotation { cos: 0, sin: fx(1.0) });
    assert_eq!(c[0], Vec2 { x: 0, y: 0 });
    assert_eq!(c[1], Vec2 { x: 0, y: fx(1.0) });
}

#[test]
fn test_rect_scaled_around_center() {
    let r = Rect {
        top_left: Vec2 { x: fx(-1.0), y: fx(-1.0) },
        bottom_right: Vec2 { x: fx(1.0), y: fx(1.0) },
    };
    let scaled = r.scaled_around_center(fx(2.0));
    assert_eq!(scaled.top_left, Vec2 { x: fx(-2.0), y: fx(-2.0) });
    assert_eq!(scaled.bottom_right, Vec2 { x: fx(2.0), y: fx(2.0) });
}
