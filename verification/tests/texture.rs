//! Texture and upload-size tests.

use ds2d::commands::Command;
use ds2d::graphics::color::Color;
use ds2d::graphics::context::{
    buffer_byte_size, BackendError, Buffer, GraphicsContext, Texture, VertexArray,
};
use ds2d::graphics::error::GraphicsError;
use ds2d::graphics::texture::Texture2D;

#[test]
fn test_solid_sample_round_trip() {
    // A 1x1 texture of color (1, 0, 0, 1) samples back to the exact
    // color after the fixed-to-byte-to-driver round trip, within one
    // 8-bit quantization step.
    let mut ctx = GraphicsContext::new(800, 600);
    let red = Color::from_rgba(65536, 0, 0, 65536);
    let tex = Texture2D::solid(&mut ctx, Texture::from_raw(4), 1, 1, red).unwrap();
    let px = tex.sample(0, 0);
    assert_eq!(px, [255, 0, 0, 255]);
    let back = Color::from_rgba_u8(px[0], px[1], px[2], px[3]);
    let step = 65536 / 255 + 1;
    assert!((back.r - red.r).abs() < step);
    assert!((back.g - red.g).abs() < step);
    assert!((back.b - red.b).abs() < step);
    assert!((back.a - red.a).abs() < step);
}

#[test]
fn test_solid_fills_every_pixel() {
    let mut ctx = GraphicsContext::new(800, 600);
    let teal = Color::from_rgba_u8(0, 128, 128, 255);
    let tex = Texture2D::solid(&mut ctx, Texture::from_raw(4), 3, 2, teal).unwrap();
    for y in 0..2 {
        for x in 0..3 {
            assert_eq!(tex.sample(x, y), [0, 128, 128, 255]);
        }
    }
}

#[test]
fn test_from_rgba_invalid_size() {
    let mut ctx = GraphicsContext::new(800, 600);
    let r = Texture2D::from_rgba(&mut ctx, Texture::from_raw(4), 2, 2, vec![0, 0, 0]);
    assert_eq!(r.unwrap_err(), GraphicsError::Backend(BackendError::InvalidSize));
}

#[test]
fn test_from_rgba_dimension_too_large() {
    let mut ctx = GraphicsContext::new(800, 600);
    let r = Texture2D::from_rgba(&mut ctx, Texture::from_raw(4), 0x7FFF_FFFF, 1, Vec::new());
    assert_eq!(r.unwrap_err(), GraphicsError::Backend(BackendError::TooLarge));
    // Rejected before any driver call.
    assert_eq!(ctx.log.len(), 0);
}

#[test]
fn test_image2d_sample_count_overflow() {
    // 50000 * 50000 * 4 does not fit the driver's signed 32-bit sample
    // count: rejected with TooLarge before any driver call is attempted.
    let mut ctx = GraphicsContext::new(800, 600);
    let r = Texture::image2d_rgba(&mut ctx, 50000, 50000, &Vec::new());
    assert_eq!(r.unwrap_err(), BackendError::TooLarge);
    assert_eq!(ctx.log.len(), 0);
}

#[test]
fn test_buffer_byte_size_boundary() {
    // A vertex upload whose byte size exceeds the driver's maximum
    // representable size fails with TooLarge rather than truncating.
    assert_eq!(buffer_byte_size(4, 32), Ok(128));
    let huge = usize::MAX / 16;
    assert_eq!(buffer_byte_size(huge, 32), Err(BackendError::TooLarge));
    // The exact boundary of the signed 64-bit size parameter.
    assert_eq!(buffer_byte_size(0x0FFF_FFFF_FFFF_FFFF, 8), Ok(0x7FFF_FFFF_FFFF_FFF8));
    assert_eq!(buffer_byte_size(0x1000_0000_0000_0000, 8), Err(BackendError::TooLarge));
}

#[test]
fn test_upload_commands_carry_data() {
    let mut ctx = GraphicsContext::new(800, 600);
    let indices: Vec<u32> = vec![0, 1, 2, 2, 3, 0];
    Buffer::data_indices(
        &mut ctx,
        ds2d::commands::BufferTarget::Element,
        &indices,
        ds2d::commands::BufferUsage::StaticDraw,
    )
    .unwrap();
    match ctx.log.last().unwrap() {
        Command::UploadIndices { indices: uploaded, .. } => {
            assert_eq!(uploaded, &indices);
        }
        other => panic!("unexpected command {:?}", other),
    }
}

#[test]
fn test_texture_identity_equality() {
    let mut ctx = GraphicsContext::new(800, 600);
    let a = Texture2D::from_rgba(&mut ctx, Texture::from_raw(5), 1, 1, vec![1, 2, 3, 4]).unwrap();
    let b = Texture2D::from_rgba(&mut ctx, Texture::from_raw(5), 1, 1, vec![9, 9, 9, 9]).unwrap();
    let c = Texture2D::from_rgba(&mut ctx, Texture::from_raw(6), 1, 1, vec![1, 2, 3, 4]).unwrap();
    // Equality is identity (same driver texture), not structure.
    assert_eq!(a, b);
    assert_ne!(a, c);
    assert_eq!(a.clone(), a);
    assert_eq!(a.width(), 1);
    assert_eq!(a.height(), 1);
    assert_eq!(a.raw().id(), 5);
}

#[test]
fn test_solid_upload_commands() {
    let mut ctx = GraphicsContext::new(800, 600);
    let tex = Texture2D::solid(&mut ctx, Texture::from_raw(4), 1, 1, Color::black()).unwrap();
    assert_eq!(tex.raw().id(), 4);
    assert_eq!(ctx.log.len(), 4);
    assert_eq!(ctx.log[0], Command::BindTexture { texture: 4 });
    match &ctx.log[1] {
        Command::TexImage2D { width, height, data } => {
            assert_eq!((*width, *height), (1, 1));
            assert_eq!(data, &vec![0u8, 0, 0, 255]);
        }
        other => panic!("unexpected command {:?}", other),
    }
    assert_eq!(ctx.log[2], Command::GenerateMipmap);
    assert_eq!(ctx.log[3], Command::BindTexture { texture: 0 });
    // keep the layout objects exercised
    let _ = VertexArray::from_raw(9);
}
