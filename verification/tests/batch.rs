//! Batching tests: run-length grouping, flushing, quad geometry.

use ds2d::commands::{Command, PrimitiveMode};
use ds2d::graphics::batch::{BatchRender, Quad};
use ds2d::graphics::color::Color;
use ds2d::graphics::context::{
    Buffer, GraphicsContext, Program, Texture, UniformInfo, UniformKind, VertexArray,
};
use ds2d::graphics::primitives::{BasicPipeline2D, RenderState};
use ds2d::graphics::texture::{Texture2D, TextureView2D};
use ds2d::graphics::transform::{Mat3, Vec2};

fn batch_program() -> Program {
    let reflection = vec![
        (
            Some("Transform".to_string()),
            UniformInfo { kind: UniformKind::FloatMat3, size: 1, location: 0 },
        ),
        (
            Some("Texture0".to_string()),
            UniformInfo { kind: UniformKind::Sampler2D, size: 1, location: 1 },
        ),
        (
            Some("UseTexture0".to_string()),
            UniformInfo { kind: UniformKind::Bool, size: 1, location: 2 },
        ),
    ];
    Program::from_reflection(7, &reflection)
}

fn batch_renderer(ctx: &mut GraphicsContext) -> BatchRender {
    let pipeline = BasicPipeline2D::from_program(batch_program());
    assert!(pipeline.is_complete());
    BatchRender::new(ctx, pipeline, Buffer::from_raw(11), VertexArray::from_raw(12))
}

fn one_by_one_texture(ctx: &mut GraphicsContext, id: u32) -> Texture2D {
    Texture2D::from_rgba(ctx, Texture::from_raw(id), 1, 1, vec![9, 9, 9, 255]).unwrap()
}

fn corners() -> [Vec2; 3] {
    [Vec2 { x: 0, y: 0 }, Vec2 { x: 65536, y: 0 }, Vec2 { x: 0, y: 65536 }]
}

#[test]
fn test_same_key_single_batch() {
    // Any run of draws with one key ends up in exactly one batch.
    let mut ctx = GraphicsContext::new(800, 600);
    let mut renderer = batch_renderer(&mut ctx);
    renderer.draw_triangle(corners(), Color::red());
    renderer.draw_triangle(corners(), Color::green());
    renderer.draw_triangle(corners(), Color::blue());
    assert_eq!(renderer.batches.len(), 1);
    assert_eq!(renderer.batches[0].start, 0);
    assert_eq!(renderer.batches[0].end, 9);
    assert_eq!(renderer.vertices.len(), 9);
}

#[test]
fn test_alternating_keys_three_batches() {
    // A, B, A with distinct keys gives three batches: adjacency only,
    // no grouping by key.
    let mut ctx = GraphicsContext::new(800, 600);
    let mut renderer = batch_renderer(&mut ctx);
    let texture = one_by_one_texture(&mut ctx, 21);
    let quad = |texture: Texture2D| Quad::textured(TextureView2D::from(texture)).build();
    renderer.draw_quad(quad(texture.clone()));
    renderer.draw_triangle(corners(), Color::white());
    renderer.draw_quad(quad(texture));
    assert_eq!(renderer.batches.len(), 3);
    assert_eq!(renderer.batches[0].start, 0);
    assert_eq!(renderer.batches[0].end, 6);
    assert_eq!(renderer.batches[1].start, 6);
    assert_eq!(renderer.batches[1].end, 9);
    assert_eq!(renderer.batches[2].start, 9);
    assert_eq!(renderer.batches[2].end, 15);
}

#[test]
fn test_same_texture_quads_merge() {
    let mut ctx = GraphicsContext::new(800, 600);
    let mut renderer = batch_renderer(&mut ctx);
    let texture = one_by_one_texture(&mut ctx, 21);
    renderer.draw_quad(Quad::textured(TextureView2D::from(texture.clone())).build());
    renderer.draw_quad(Quad::textured(TextureView2D::from(texture)).build());
    assert_eq!(renderer.batches.len(), 1);
    assert_eq!(renderer.batches[0].end, 12);
}

#[test]
fn test_flush_draws_batches_and_clears() {
    let mut ctx = GraphicsContext::new(800, 600);
    let mut renderer = batch_renderer(&mut ctx);
    let texture = one_by_one_texture(&mut ctx, 21);
    renderer.draw_triangle(corners(), Color::white());
    renderer.draw_quad(Quad::textured(TextureView2D::from(texture)).build());
    let before = ctx.log.len();
    renderer
        .draw(&mut ctx, RenderState { transform: Mat3::identity() })
        .unwrap();
    assert_eq!(renderer.batches.len(), 0);
    assert_eq!(renderer.vertices.len(), 0);
    let draws: Vec<&Command> = ctx.log[before..]
        .iter()
        .filter(|c| matches!(c, Command::DrawArrays { mode: PrimitiveMode::Triangles, .. }))
        .collect();
    assert_eq!(draws.len(), 2);
    assert_eq!(draws[0], &Command::DrawArrays { mode: PrimitiveMode::Triangles, first: 0, count: 3 });
    assert_eq!(draws[1], &Command::DrawArrays { mode: PrimitiveMode::Triangles, first: 0, count: 6 });
}

#[test]
fn test_flush_rebinds_texture_only_on_change() {
    // A, untextured, A again: the second A batch finds the texture
    // still bound from the first and issues no second bind.
    let mut ctx = GraphicsContext::new(800, 600);
    let mut renderer = batch_renderer(&mut ctx);
    let texture = one_by_one_texture(&mut ctx, 21);
    renderer.draw_quad(Quad::textured(TextureView2D::from(texture.clone())).build());
    renderer.draw_triangle(corners(), Color::white());
    renderer.draw_quad(Quad::textured(TextureView2D::from(texture)).build());
    let before = ctx.log.len();
    renderer
        .draw(&mut ctx, RenderState { transform: Mat3::identity() })
        .unwrap();
    let binds: Vec<&Command> = ctx.log[before..]
        .iter()
        .filter(|c| matches!(c, Command::BindTexture { texture } if *texture == 21))
        .collect();
    assert_eq!(binds.len(), 1);
}

#[test]
fn test_quad_corners_axis_aligned() {
    let quad = Quad::untextured(Vec2 { x: 2 * 65536, y: 3 * 65536 })
        .with_position(Vec2 { x: 10 * 65536, y: 20 * 65536 })
        .build();
    assert_eq!(quad.vertices[0].position, Vec2 { x: 10 * 65536, y: 20 * 65536 });
    assert_eq!(quad.vertices[1].position, Vec2 { x: 12 * 65536, y: 20 * 65536 });
    assert_eq!(quad.vertices[2].position, Vec2 { x: 12 * 65536, y: 23 * 65536 });
    assert_eq!(quad.vertices[3].position, Vec2 { x: 10 * 65536, y: 23 * 65536 });
    assert_eq!(quad.key.texture, None);
}

#[test]
fn test_quad_centered_at_origin_is_center() {
    let quad = Quad::untextured(Vec2 { x: 2 * 65536, y: 2 * 65536 })
        .centered_at(Vec2 { x: 0, y: 0 })
        .build();
    assert_eq!(quad.vertices[0].position, Vec2 { x: -65536, y: -65536 });
    assert_eq!(quad.vertices[2].position, Vec2 { x: 65536, y: 65536 });
}

#[test]
fn test_quad_stream_winding_order() {
    // Two triangles per quad: 0-2-1 then 0-3-2.
    let mut ctx = GraphicsContext::new(800, 600);
    let mut renderer = batch_renderer(&mut ctx);
    let quad = Quad::untextured(Vec2 { x: 65536, y: 65536 }).build();
    let v = quad.vertices;
    renderer.draw_quad(quad);
    assert_eq!(renderer.vertices[0], v[0]);
    assert_eq!(renderer.vertices[1], v[2]);
    assert_eq!(renderer.vertices[2], v[1]);
    assert_eq!(renderer.vertices[3], v[0]);
    assert_eq!(renderer.vertices[4], v[3]);
    assert_eq!(renderer.vertices[5], v[2]);
}
