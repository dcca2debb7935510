//! Context, projection and top-level entry point tests.

use ds2d::commands::Command;
use ds2d::graphics::batch::BatchRender;
use ds2d::graphics::blend::BlendMode;
use ds2d::graphics::color::Color;
use ds2d::graphics::context::{Buffer, Program, Texture, UniformInfo, UniformKind, VertexArray};
use ds2d::graphics::primitives::BasicPipeline2D;
use ds2d::graphics::transform::Vec2;
use ds2d::graphics::{clear, draw, screen_size, set_blend_mode};
use ds2d::Context;

#[test]
fn test_projection_for_screen() {
    // For an 800 by 600 screen the projection scales x by 2/800 and y by
    // -2/600 (truncated in 16.16) and moves the origin to the top-left.
    let ctx = Context::new(800, 600);
    let p = ctx.graphics.pixel_projection;
    assert_eq!(p.xx, 131072 / 800);
    assert_eq!(p.yy, -(131072 / 600));
    assert_eq!(p.xy, 0);
    assert_eq!(p.yx, 0);
    assert_eq!(p.tx, -65536);
    assert_eq!(p.ty, 65536);
}

#[test]
fn test_resize_recomputes_projection() {
    let mut ctx = Context::new(800, 600);
    ctx.graphics.resize(400, 300);
    assert_eq!(screen_size(&ctx), (400, 300));
    assert_eq!(ctx.graphics.pixel_projection.xx, 131072 / 400);
    assert_eq!(
        *ctx.graphics.log.last().unwrap(),
        Command::Viewport { width: 400, height: 300 }
    );
}

#[test]
fn test_clear_emits_two_commands() {
    let mut ctx = Context::new(800, 600);
    clear(&mut ctx, Color::magenta());
    assert_eq!(ctx.graphics.log.len(), 2);
    assert_eq!(ctx.graphics.log[0], Command::ClearColor { color: Color::magenta() });
    assert_eq!(ctx.graphics.log[1], Command::Clear);
}

#[test]
fn test_take_commands_drains_log() {
    let mut ctx = Context::new(800, 600);
    set_blend_mode(&mut ctx, Some(BlendMode::alpha()));
    let cmds = ctx.take_commands();
    assert_eq!(cmds.len(), 3);
    assert_eq!(ctx.graphics.log.len(), 0);
    // The remembered blend mode survives the drain.
    set_blend_mode(&mut ctx, Some(BlendMode::alpha()));
    assert_eq!(ctx.graphics.log.len(), 0);
}

#[test]
fn test_draw_entry_applies_projection() {
    // The uniform draw entry composes the pixel projection as the
    // ambient transform, so batched coordinates are pixels.
    let mut ctx = Context::new(800, 600);
    let reflection = vec![
        (
            Some("Transform".to_string()),
            UniformInfo { kind: UniformKind::FloatMat3, size: 1, location: 0 },
        ),
        (
            Some("Texture0".to_string()),
            UniformInfo { kind: UniformKind::Sampler2D, size: 1, location: 1 },
        ),
        (
            Some("UseTexture0".to_string()),
            UniformInfo { kind: UniformKind::Bool, size: 1, location: 2 },
        ),
    ];
    let pipeline = BasicPipeline2D::from_program(Program::from_reflection(7, &reflection));
    let mut renderer = BatchRender::new(
        &mut ctx.graphics,
        pipeline,
        Buffer::from_raw(11),
        VertexArray::from_raw(12),
    );
    renderer.draw_triangle(
        [Vec2 { x: 0, y: 0 }, Vec2 { x: 65536, y: 0 }, Vec2 { x: 0, y: 65536 }],
        Color::white(),
    );
    let projection = ctx.graphics.pixel_projection;
    draw(&mut ctx, &mut renderer).unwrap();
    assert!(ctx
        .graphics
        .log
        .contains(&Command::UniformMat3 { location: 0, value: projection }));
}

#[test]
fn test_delete_consumes_handles() {
    // Releasing a handle takes it by value, so each driver object is
    // released exactly once; the release shows up as one command.
    let mut ctx = Context::new(800, 600);
    let buffer = Buffer::from_raw(5);
    buffer.delete(&mut ctx.graphics);
    let texture = Texture::from_raw(6);
    texture.delete(&mut ctx.graphics);
    let vao = VertexArray::from_raw(7);
    vao.delete(&mut ctx.graphics);
    assert_eq!(
        ctx.graphics.log,
        vec![
            Command::DeleteBuffer { buffer: 5 },
            Command::DeleteTexture { texture: 6 },
            Command::DeleteVertexArray { array: 7 },
        ]
    );
}
