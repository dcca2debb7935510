//! Mesh tests: assembly uploads and the uniform error surface.

use ds2d::commands::Command;
use ds2d::graphics::context::{
    BackendError, Buffer, GraphicsContext, Program, UniformInfo, UniformKind, VertexArray,
};
use ds2d::graphics::error::GraphicsError;
use ds2d::graphics::mesh::Mesh;
use ds2d::graphics::primitives::RenderState;
use ds2d::graphics::transform::{Mat3, Vec2};

fn mesh_program() -> Program {
    let reflection = vec![
        (
            Some("model_view_projection".to_string()),
            UniformInfo { kind: UniformKind::FloatMat3, size: 1, location: 0 },
        ),
    ];
    Program::from_reflection(9, &reflection)
}

fn triangle_geometry() -> (Vec<Vec2>, Vec<u32>) {
    let vertices = vec![
        Vec2 { x: 0, y: 0 },
        Vec2 { x: 65536, y: 0 },
        Vec2 { x: 0, y: 65536 },
    ];
    (vertices, vec![0, 1, 2])
}

fn demo_mesh(ctx: &mut GraphicsContext, program: Program) -> Mesh {
    let (vertices, indices) = triangle_geometry();
    Mesh::new(
        ctx,
        program,
        Buffer::from_raw(1),
        Buffer::from_raw(2),
        VertexArray::from_raw(3),
        &vertices,
        &indices,
    )
    .unwrap()
}

#[test]
fn test_mesh_new_uploads_once() {
    let mut ctx = GraphicsContext::new(800, 600);
    let mesh = demo_mesh(&mut ctx, mesh_program());
    assert_eq!(mesh.num_elements, 3);
    assert_eq!(ctx.log.len(), 9);
    match &ctx.log[3] {
        Command::UploadPositions { positions, .. } => assert_eq!(positions.len(), 3),
        other => panic!("unexpected command {:?}", other),
    }
    match &ctx.log[4] {
        Command::UploadIndices { indices, .. } => assert_eq!(indices, &vec![0u32, 1, 2]),
        other => panic!("unexpected command {:?}", other),
    }
}

#[test]
fn test_mesh_draw_issues_indexed_call() {
    let mut ctx = GraphicsContext::new(800, 600);
    let mut mesh = demo_mesh(&mut ctx, mesh_program());
    let before = ctx.log.len();
    mesh.draw(&mut ctx, RenderState { transform: Mat3::identity() }).unwrap();
    let tail = &ctx.log[before..];
    assert_eq!(tail.len(), 6);
    assert_eq!(tail[0], Command::UseProgram { program: 9 });
    assert!(matches!(tail[1], Command::UniformMat3 { location: 0, .. }));
    assert_eq!(tail[3], Command::DrawElements { count: 3 });
    assert_eq!(tail[5], Command::UseProgram { program: 0 });
}

#[test]
fn test_mesh_draw_missing_uniform() {
    // A program without the expected matrix uniform is a recoverable,
    // typed misconfiguration.
    let mut ctx = GraphicsContext::new(800, 600);
    let program = Program::from_reflection(9, &Vec::new());
    let mut mesh = demo_mesh(&mut ctx, program);
    let r = mesh.draw(&mut ctx, RenderState { transform: Mat3::identity() });
    assert_eq!(
        r.unwrap_err(),
        GraphicsError::Backend(BackendError::NoSuchUniform {
            uniform: "model_view_projection".to_string(),
        })
    );
}
