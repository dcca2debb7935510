//! Pipeline, dirty-flag and blend-cache tests.

use ds2d::commands::Command;
use ds2d::graphics::blend::BlendMode;
use ds2d::graphics::context::{
    BackendError, GraphicsContext, Program, Shader, UniformInfo, UniformKind,
};
use ds2d::graphics::primitives::{BasicPipeline2D, ShaderParameter};
use ds2d::graphics::transform::{translate, Vec2};

fn pipeline_program() -> Program {
    let reflection = vec![
        (
            Some("Transform".to_string()),
            UniformInfo { kind: UniformKind::FloatMat3, size: 1, location: 0 },
        ),
        (
            Some("Texture0".to_string()),
            UniformInfo { kind: UniformKind::Sampler2D, size: 1, location: 1 },
        ),
        (
            Some("UseTexture0".to_string()),
            UniformInfo { kind: UniformKind::Bool, size: 1, location: 2 },
        ),
    ];
    Program::from_reflection(7, &reflection)
}

#[test]
fn test_apply_idempotent() {
    // Applying twice with no intervening set_* issues zero additional
    // uniform uploads: the second application binds the program and
    // nothing else.
    let mut ctx = GraphicsContext::new(800, 600);
    let mut pipeline = BasicPipeline2D::from_program(pipeline_program());
    pipeline.set_transform(translate(Vec2 { x: 65536, y: 131072 }));
    pipeline.set_texture(Some(0));
    pipeline.set_blend_mode(Some(BlendMode::alpha()));
    pipeline.apply(&mut ctx).unwrap();
    let after_first = ctx.log.len();
    pipeline.apply(&mut ctx).unwrap();
    assert_eq!(ctx.log.len(), after_first + 1);
    assert_eq!(*ctx.log.last().unwrap(), Command::UseProgram { program: 7 });
}

#[test]
fn test_shader_parameter_dirty_transitions() {
    let mut p: ShaderParameter<i32> = ShaderParameter::new("Texture0".to_string(), 5, false);
    p.set(5);
    assert!(!p.dirty);
    p.set(6);
    assert!(p.dirty);
    assert_eq!(p.value, 6);
}

#[test]
fn test_set_uniform_missing_name() {
    let mut ctx = GraphicsContext::new(800, 600);
    let program = pipeline_program();
    let name = "NoSuchName".to_string();
    let r = program.set_uniform(&mut ctx, &name, &5i32);
    assert_eq!(r, Err(BackendError::NoSuchUniform { uniform: "NoSuchName".to_string() }));
    assert_eq!(ctx.log.len(), 0);
}

#[test]
fn test_set_uniform_wrong_type() {
    let mut ctx = GraphicsContext::new(800, 600);
    let program = pipeline_program();
    let name = "Transform".to_string();
    let r = program.set_uniform(&mut ctx, &name, &5i32);
    assert_eq!(
        r,
        Err(BackendError::UniformType {
            uniform: "Transform".to_string(),
            uniform_type: UniformKind::FloatMat3,
        })
    );
}

#[test]
fn test_blend_modes_compare_equal() {
    assert_eq!(BlendMode::alpha(), BlendMode::alpha());
    assert_ne!(BlendMode::alpha(), BlendMode::additive());
    assert_eq!(BlendMode::default(), BlendMode::alpha());
}

#[test]
fn test_blend_cache_skips_repeat() {
    // Setting the same mode twice triggers the underlying driver calls
    // only on the first application.
    let mut ctx = GraphicsContext::new(800, 600);
    ctx.set_blend_mode(Some(BlendMode::alpha()));
    // enable + equation + factors
    assert_eq!(ctx.log.len(), 3);
    assert_eq!(ctx.log[0], Command::EnableBlend);
    ctx.set_blend_mode(Some(BlendMode::alpha()));
    assert_eq!(ctx.log.len(), 3);
    // A different mode changes factors without re-enabling.
    ctx.set_blend_mode(Some(BlendMode::additive()));
    assert_eq!(ctx.log.len(), 5);
    // Turning blending off issues one disable.
    ctx.set_blend_mode(None);
    assert_eq!(ctx.log.len(), 6);
    assert_eq!(ctx.log[5], Command::DisableBlend);
}

#[test]
fn test_pipeline_texture_flag() {
    let mut pipeline = BasicPipeline2D::from_program(pipeline_program());
    assert_eq!(pipeline.get_texture(), None);
    pipeline.set_texture(Some(3));
    assert_eq!(pipeline.get_texture(), Some(3));
    pipeline.set_texture(None);
    assert_eq!(pipeline.get_texture(), None);
}

#[test]
fn test_uniform_table_reflection_skips_unreadable() {
    let reflection = vec![
        (
            Some("Transform".to_string()),
            UniformInfo { kind: UniformKind::FloatMat3, size: 1, location: 0 },
        ),
        (None, UniformInfo { kind: UniformKind::Other, size: 1, location: 9 }),
        (
            Some("Texture0".to_string()),
            UniformInfo { kind: UniformKind::Sampler2D, size: 1, location: 1 },
        ),
    ];
    let program = Program::from_reflection(3, &reflection);
    assert_eq!(program.uniforms.len(), 2);
    let name = "Texture0".to_string();
    assert_eq!(
        program.uniforms.get(&name),
        Some(UniformInfo { kind: UniformKind::Sampler2D, size: 1, location: 1 })
    );
}

#[test]
fn test_compile_outcome_decides() {
    // A reported success wraps the identifier; a failure carries the
    // driver's diagnostic log verbatim.
    let ok = Shader::compile_outcome(5, true, String::new()).unwrap();
    assert_eq!(ok.id, 5);
    let err = Shader::compile_outcome(5, false, "syntax error in stage".to_string());
    assert_eq!(
        err.unwrap_err(),
        BackendError::CompileShader { log: "syntax error in stage".to_string() }
    );
}

#[test]
fn test_link_outcome_decides() {
    let reflection = vec![
        (
            Some("Transform".to_string()),
            UniformInfo { kind: UniformKind::FloatMat3, size: 1, location: 0 },
        ),
    ];
    let ok = Program::link_outcome(9, true, String::new(), &reflection).unwrap();
    assert_eq!(ok.id, 9);
    assert_eq!(ok.uniforms.len(), 1);
    let err = Program::link_outcome(9, false, "unresolved symbol".to_string(), &Vec::new());
    assert_eq!(
        err.unwrap_err(),
        BackendError::LinkProgram { log: "unresolved symbol".to_string() }
    );
}

#[test]
fn test_apply_failure_is_typed_and_partial() {
    // A pipeline whose program lacks a uniform fails with the first
    // failing parameter's typed error, leaving only the program bind
    // and the parameters uploaded before it in the log.
    let mut ctx = GraphicsContext::new(800, 600);
    let reflection = vec![
        (
            Some("Transform".to_string()),
            UniformInfo { kind: UniformKind::FloatMat3, size: 1, location: 0 },
        ),
    ];
    let mut pipeline = BasicPipeline2D::from_program(Program::from_reflection(4, &reflection));
    // Freshly constructed, only the texture-unit parameter is dirty and
    // its uniform is missing from the table.
    let r = pipeline.apply(&mut ctx);
    assert_eq!(
        r.unwrap_err(),
        BackendError::NoSuchUniform { uniform: "Texture0".to_string() }
    );
    assert_eq!(ctx.log, vec![Command::UseProgram { program: 4 }]);
}
