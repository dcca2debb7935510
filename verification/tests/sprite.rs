//! Sprite tests: transform round trip, setup and draw commands.

use ds2d::commands::{Command, PrimitiveMode};
use ds2d::graphics::context::{
    Buffer, GraphicsContext, Program, Texture, UniformInfo, UniformKind, VertexArray,
};
use ds2d::graphics::primitives::{BasicPipeline2D, RenderState};
use ds2d::graphics::sprite::Sprite;
use ds2d::graphics::texture::Texture2D;
use ds2d::graphics::transform::{Rotation, Vec2};

fn sprite_program() -> Program {
    let reflection = vec![
        (
            Some("Transform".to_string()),
            UniformInfo { kind: UniformKind::FloatMat3, size: 1, location: 0 },
        ),
        (
            Some("Texture0".to_string()),
            UniformInfo { kind: UniformKind::Sampler2D, size: 1, location: 1 },
        ),
        (
            Some("UseTexture0".to_string()),
            UniformInfo { kind: UniformKind::Bool, size: 1, location: 2 },
        ),
    ];
    Program::from_reflection(7, &reflection)
}

fn fx(v: f64) -> i64 {
    (v * 65536.0).round() as i64
}

fn demo_sprite(ctx: &mut GraphicsContext) -> Sprite {
    let texture =
        Texture2D::from_rgba(ctx, Texture::from_raw(21), 2, 2, vec![0u8; 16]).unwrap();
    let pipeline = BasicPipeline2D::from_program(sprite_program());
    Sprite::build(texture).build(ctx, pipeline, Buffer::from_raw(11), VertexArray::from_raw(12))
}

#[test]
fn test_origin_maps_to_position() {
    // Reading back local_transform() applied to the origin point of
    // local space yields the sprite's position, regardless of rotation.
    let mut ctx = GraphicsContext::new(800, 600);
    let mut sprite = demo_sprite(&mut ctx);
    let theta: f64 = 0.5235987755982988;  // thirty degrees
    sprite.set_rotation(Rotation { cos: fx(theta.cos()), sin: fx(theta.sin()) });
    sprite.set_origin(Vec2 { x: fx(0.5), y: fx(0.5) });
    sprite.set_position(Vec2 { x: fx(100.0), y: fx(50.0) });
    let m = sprite.local_transform();
    let mapped = m.apply(sprite.origin());
    assert_eq!(mapped, sprite.position());
}

#[test]
fn test_origin_maps_to_position_many_angles() {
    let mut ctx = GraphicsContext::new(800, 600);
    let mut sprite = demo_sprite(&mut ctx);
    sprite.set_origin(Vec2 { x: fx(0.25), y: fx(0.75) });
    sprite.set_position(Vec2 { x: fx(-37.5), y: fx(12.0) });
    for i in 0..16 {
        let theta = (i as f64) * 0.39269908169872414;
        sprite.set_rotation(Rotation { cos: fx(theta.cos()), sin: fx(theta.sin()) });
        let mapped = sprite.local_transform().apply(sprite.origin());
        assert_eq!(mapped, sprite.position());
    }
}

#[test]
fn test_sprite_setup_uploads_unit_quad() {
    let mut ctx = GraphicsContext::new(800, 600);
    let texture =
        Texture2D::from_rgba(&mut ctx, Texture::from_raw(21), 2, 2, vec![0u8; 16]).unwrap();
    let pipeline = BasicPipeline2D::from_program(sprite_program());
    let before = ctx.log.len();
    let sprite = Sprite::build(texture).build(
        &mut ctx,
        pipeline,
        Buffer::from_raw(11),
        VertexArray::from_raw(12),
    );
    // Bind layout and buffer, upload, three attribute pairs, unbind.
    assert_eq!(ctx.log.len() - before, 11);
    match &ctx.log[before + 2] {
        Command::UploadVertices { vertices, .. } => {
            assert_eq!(vertices.len(), 4);
            assert_eq!(vertices[0].position, Vec2 { x: 0, y: 0 });
            assert_eq!(vertices[3].position, Vec2 { x: 65536, y: 65536 });
            // The whole texture: UV from (0,0) to (1,1).
            assert_eq!(vertices[3].tex_coord, Vec2 { x: 65536, y: 65536 });
        }
        other => panic!("unexpected command {:?}", other),
    }
    assert_eq!(sprite.texture().raw().id(), 21);
    // The builder sized the sprite to the texture's pixel size.
    assert_eq!(sprite.size, Vec2 { x: 2 * 65536, y: 2 * 65536 });
}

#[test]
fn test_sprite_draw_commands() {
    let mut ctx = GraphicsContext::new(800, 600);
    let mut sprite = demo_sprite(&mut ctx);
    let before = ctx.log.len();
    let projection = ctx.pixel_projection;
    sprite.draw(&mut ctx, RenderState { transform: projection }).unwrap();
    let tail = &ctx.log[before..];
    // One strip draw call of four vertices, with the texture bound
    // around it.
    assert!(tail.contains(&Command::DrawArrays {
        mode: PrimitiveMode::TriangleStrip,
        first: 0,
        count: 4,
    }));
    assert!(tail.contains(&Command::BindTexture { texture: 21 }));
    assert_eq!(tail.last(), Some(&Command::UseProgram { program: 0 }));
    // Alpha blending was applied through the context's cache.
    assert!(tail.contains(&Command::EnableBlend));
}

#[test]
fn test_sprite_setters() {
    let mut ctx = GraphicsContext::new(800, 600);
    let mut sprite = demo_sprite(&mut ctx);
    sprite.set_position(Vec2 { x: 7, y: 8 });
    assert_eq!(sprite.position(), Vec2 { x: 7, y: 8 });
    sprite.set_origin(Vec2 { x: 1, y: 2 });
    assert_eq!(sprite.origin(), Vec2 { x: 1, y: 2 });
    let rot = Rotation { cos: 0, sin: 65536 };
    sprite.set_rotation(rot);
    assert_eq!(sprite.rotation(), rot);
    assert_eq!(sprite.tint(), ds2d::graphics::color::Color::white());
}
