//! The shared 2D pipeline: vertex layout, dirty-tracked shader
//! parameters, and the pipeline state applied before each draw call.

use vstd::prelude::*;

use crate::commands::Command;
use crate::graphics::blend::BlendMode;
use crate::graphics::color::Color;
use crate::graphics::context::{
    blend_cmds, lookup_spec, BackendError, GraphicsContext, Program, UniformInfo, UniformKind,
    UniformValue,
};
use crate::graphics::transform::{Mat3, Vec2};

verus! {

/// Ephemeral per-draw-call state: the accumulated transform threaded
/// through nested drawable composition.
#[derive(Debug, Copy, Clone)]
pub struct RenderState {
    pub transform: Mat3,
}

/// The vertex type consumed by the basic 2D pipeline. On the driver side
/// a vertex is eight 32-bit floats: position, texture coordinate and
/// color, in that order and tightly packed.
#[derive(Debug, Clone, Copy, PartialEq, Eq, Structural)]
pub struct BasicVertex2D {
    pub position: Vec2,
    pub tex_coord: Vec2,
    pub color: Color,
}

impl BasicVertex2D {
    /// A white, untextured vertex at `position`.
    pub fn with_position(position: Vec2) -> (v: BasicVertex2D)
        ensures
            v.position == position,
            v.tex_coord == (Vec2 { x: 0, y: 0 }),
            v.color == (Color { r: 65536, g: 65536, b: 65536, a: 65536 }),
    {
        BasicVertex2D::with_position_color(position, Color::white())
    }

    /// An untextured vertex at `position` with the given color.
    pub fn with_position_color(position: Vec2, color: Color) -> (v: BasicVertex2D)
        ensures
            v.position == position,
            v.tex_coord == (Vec2 { x: 0, y: 0 }),
            v.color == color,
    {
        BasicVertex2D { position, color, tex_coord: Vec2 { x: 0, y: 0 } }
    }

    /// The vertex-attribute layout matching the driver-side packing of
    /// [`BasicVertex2D`]: position at byte 0, texture coordinate at byte
    /// 8, color at byte 16, with a 32-byte stride.
    pub fn attributes() -> (attribs: Vec<VertexAttrib>)
        ensures
            attribs@.len() == 3,
            attribs@[0] == (VertexAttrib {
                index: 0,
                size: 2,
                kind: AttribKind::Float,
                normalized: false,
                stride: 32,
                offset: 0,
            }),
            attribs@[1] == (VertexAttrib {
                index: 1,
                size: 2,
                kind: AttribKind::Float,
                normalized: false,
                stride: 32,
                offset: 8,
            }),
            attribs@[2] == (VertexAttrib {
                index: 2,
                size: 4,
                kind: AttribKind::Float,
                normalized: false,
                stride: 32,
                offset: 16,
            }),
    {
        let mut attribs: Vec<VertexAttrib> = Vec::new();
        attribs.push(
            VertexAttrib {
                index: 0,
                size: 2,
                kind: AttribKind::Float,
                normalized: false,
                stride: 32,
                offset: 0,
            },
        );
        attribs.push(
            VertexAttrib {
                index: 1,
                size: 2,
                kind: AttribKind::Float,
                normalized: false,
                stride: 32,
                offset: 8,
            },
        );
        attribs.push(
            VertexAttrib {
                index: 2,
                size: 4,
                kind: AttribKind::Float,
                normalized: false,
                stride: 32,
                offset: 16,
            },
        );
        attribs
    }
}

/// The scalar type of a vertex attribute.
#[derive(Debug, Clone, Copy, PartialEq, Eq, Structural)]
pub enum AttribKind {
    /// A 32-bit floating-point component.
    Float,
}

/// Definition of one vertex attribute inside a packed vertex record.
#[derive(Debug, Clone, Copy, PartialEq, Eq, Structural)]
pub struct VertexAttrib {
    pub index: u32,
    pub size: i32,
    pub kind: AttribKind,
    pub normalized: bool,
    pub stride: i32,
    pub offset: usize,
}

/// A named, typed shader parameter with a dirty flag: `set` marks it
/// dirty only when the value actually changes, and applying the
/// pipeline uploads only dirty parameters.
#[derive(Debug)]
pub struct ShaderParameter<T> {
    pub name: String,
    pub value: T,
    pub dirty: bool,
}

/// The parameter after requesting the value `v`: untouched when `v` is
/// already current, otherwise holding `v` with the dirty flag raised.
pub open spec fn param_set<T>(p: ShaderParameter<T>, v: T) -> ShaderParameter<T> {
    if p.value == v {
        p
    } else {
        ShaderParameter { name: p.name, value: v, dirty: true }
    }
}

/// The parameter with its dirty flag lowered.
pub open spec fn param_clean<T>(p: ShaderParameter<T>) -> ShaderParameter<T> {
    ShaderParameter { name: p.name, value: p.value, dirty: false }
}

/// Whether applying this parameter against `table` succeeds: a clean
/// parameter is skipped, a dirty one needs a uniform of its name whose
/// reflected type accepts the value.
pub open spec fn param_apply_ok<T: UniformValue>(
    p: ShaderParameter<T>,
    table: Seq<(Seq<char>, UniformInfo)>,
) -> bool {
    ||| !p.dirty
    ||| (lookup_spec(table, p.name@) matches Option::Some(info) && T::allowed_kind(info.kind))
}

/// The commands uploading this parameter: nothing when clean, one
/// assignment at the reflected location when dirty.
pub open spec fn param_apply_cmds<T: UniformValue>(
    p: ShaderParameter<T>,
    table: Seq<(Seq<char>, UniformInfo)>,
) -> Seq<Command> {
    if !p.dirty {
        Seq::empty()
    } else {
        match lookup_spec(table, p.name@) {
            Option::Some(info) => seq![p.value.command_of(info.location)],
            Option::None => Seq::empty(),
        }
    }
}

/// The error produced when applying this parameter fails.
pub open spec fn param_apply_err<T: UniformValue>(
    p: ShaderParameter<T>,
    table: Seq<(Seq<char>, UniformInfo)>,
) -> BackendError {
    match lookup_spec(table, p.name@) {
        Option::None => BackendError::NoSuchUniform { uniform: p.name },
        Option::Some(info) => BackendError::UniformType { uniform: p.name, uniform_type: info.kind },
    }
}

impl<T: UniformValue + PartialEq + vstd::std_specs::cmp::PartialEqSpec> ShaderParameter<T> {
    /// A parameter with the given uniform name, initial value, and
    /// initial dirty flag.
    pub fn new(name: String, initial: T, dirty: bool) -> (p: ShaderParameter<T>)
        ensures
            p.name == name,
            p.value == initial,
            p.dirty == dirty,
    {
        ShaderParameter { name, value: initial, dirty }
    }

    /// Requests a new value: compares by value equality and marks the
    /// parameter dirty only on change.
    pub fn set(&mut self, new_value: T)
        requires
            T::obeys_eq_spec(),
        ensures
            old(self).value.eq_spec(&new_value) ==> *final(self) == *old(self),
            !old(self).value.eq_spec(&new_value) ==> *final(self) == (ShaderParameter {
                name: old(self).name,
                value: new_value,
                dirty: true,
            }),
    {
        if self.value != new_value {
            self.dirty = true;
            self.value = new_value;
        }
    }

    /// Uploads the parameter through the program's uniform table if it
    /// is dirty; on success the dirty flag settles to false.
    pub fn set_uniform(&mut self, program: &Program, ctx: &mut GraphicsContext) -> (r: Result<
        (),
        BackendError,
    >)
        ensures
            param_apply_ok(*old(self), program.uniforms@) ==> r == Ok::<(), BackendError>(())
                && *final(self) == param_clean(*old(self))
                && crate::graphics::context::ctx_logged(
                *old(ctx),
                *final(ctx),
                param_apply_cmds(*old(self), program.uniforms@),
            ),
            !param_apply_ok(*old(self), program.uniforms@) ==> r == Err::<(), BackendError>(
                param_apply_err(*old(self), program.uniforms@),
            ) && *final(self) == *old(self) && *final(ctx) == *old(ctx),
    {
        if self.dirty {
            let result = program.set_uniform(ctx, &self.name, &self.value);
            match result {
                Ok(()) => {
                    self.dirty = false;
                    Ok(())
                },
                Err(e) => Err(e),
            }
        } else {
            proof {
                assert(ctx_unchanged_is_logged_empty(*old(ctx)));
            }
            Ok(())
        }
    }
}

/// A context extended by no commands is the context itself.
spec fn ctx_unchanged_is_logged_empty(ctx: GraphicsContext) -> bool {
    crate::graphics::context::ctx_logged(ctx, ctx, Seq::empty())
}

/// A basic pipeline for 2D rendering that can be used in a wide variety
/// of drawables: one linked program, three dirty-tracked parameters, and
/// the blend mode requested for the next application.
#[derive(Debug)]
pub struct BasicPipeline2D {
    pub program: Program,
    pub transform: ShaderParameter<Mat3>,
    pub texture: ShaderParameter<i32>,
    pub use_texture: ShaderParameter<bool>,
    pub blend_mode: Option<BlendMode>,
}

/// The pipeline after `set_transform`.
pub open spec fn pipe_set_transform(p: BasicPipeline2D, new: Mat3) -> BasicPipeline2D {
    BasicPipeline2D {
        transform: param_set(p.transform, new),
        ..p
    }
}

/// The pipeline after `set_texture`.
pub open spec fn pipe_set_texture(p: BasicPipeline2D, new: Option<i32>) -> BasicPipeline2D {
    match new {
        Option::Some(tex) => BasicPipeline2D {
            texture: param_set(p.texture, tex),
            use_texture: param_set(p.use_texture, true),
            ..p
        },
        Option::None => BasicPipeline2D {
            use_texture: param_set(p.use_texture, false),
            ..p
        },
    }
}

/// The pipeline after `set_blend_mode`.
pub open spec fn pipe_set_blend(p: BasicPipeline2D, new: Option<BlendMode>) -> BasicPipeline2D {
    BasicPipeline2D { blend_mode: new, ..p }
}

/// Whether applying `p` succeeds: every dirty parameter resolves in the
/// program's uniform table with an accepting type.
pub open spec fn apply_ok(p: BasicPipeline2D) -> bool {
    &&& param_apply_ok(p.transform, p.program.uniforms@)
    &&& param_apply_ok(p.texture, p.program.uniforms@)
    &&& param_apply_ok(p.use_texture, p.program.uniforms@)
}

/// The driver calls a successful application issues: the program bind,
/// the dirty uniforms in order, and the blend change relative to the
/// tracker's remembered mode.
pub open spec fn apply_cmds(p: BasicPipeline2D, prev_blend: Option<BlendMode>) -> Seq<Command> {
    seq![Command::UseProgram { program: p.program.id }] + param_apply_cmds(
        p.transform,
        p.program.uniforms@,
    ) + param_apply_cmds(p.texture, p.program.uniforms@) + param_apply_cmds(
        p.use_texture,
        p.program.uniforms@,
    ) + blend_cmds(prev_blend, p.blend_mode)
}

/// The pipeline after a successful application: every dirty flag settles
/// to false.
pub open spec fn apply_post(p: BasicPipeline2D) -> BasicPipeline2D {
    BasicPipeline2D {
        transform: param_clean(p.transform),
        texture: param_clean(p.texture),
        use_texture: param_clean(p.use_texture),
        ..p
    }
}

/// The contract of a failed application: the first parameter that does
/// not resolve decides the typed error; the program bind and the
/// parameters already uploaded before it stay in the log, the failing
/// parameter and everything after it are untouched, and no blend call
/// is issued.
pub open spec fn apply_fail_post(
    pre: BasicPipeline2D,
    post: BasicPipeline2D,
    pre_ctx: GraphicsContext,
    post_ctx: GraphicsContext,
    r: Result<(), BackendError>,
) -> bool {
    let t = pre.program.uniforms@;
    let bind = seq![Command::UseProgram { program: pre.program.id }];
    &&& crate::graphics::context::ctx_same_state(pre_ctx, post_ctx)
    &&& if !param_apply_ok(pre.transform, t) {
        &&& r == Err::<(), BackendError>(param_apply_err(pre.transform, t))
        &&& post == pre
        &&& post_ctx.log@ == pre_ctx.log@ + bind
    } else if !param_apply_ok(pre.texture, t) {
        &&& r == Err::<(), BackendError>(param_apply_err(pre.texture, t))
        &&& post == (BasicPipeline2D { transform: param_clean(pre.transform), ..pre })
        &&& post_ctx.log@ == pre_ctx.log@ + bind + param_apply_cmds(pre.transform, t)
    } else {
        &&& r == Err::<(), BackendError>(param_apply_err(pre.use_texture, t))
        &&& post == (BasicPipeline2D {
            transform: param_clean(pre.transform),
            texture: param_clean(pre.texture),
            ..pre
        })
        &&& post_ctx.log@ == pre_ctx.log@ + bind + param_apply_cmds(pre.transform, t)
            + param_apply_cmds(pre.texture, t)
    }
}

impl BasicPipeline2D {
    /// Couples a linked program with the pipeline's initial parameters:
    /// identity transform, texture unit zero (to be uploaded on first
    /// application), texturing off, blending off.
    pub fn from_program(program: Program) -> (p: BasicPipeline2D)
        ensures
            p.program == program,
            p.transform.name@ == "Transform"@,
            p.transform.value@ == crate::graphics::transform::identity_spec(),
            !p.transform.dirty,
            p.texture.name@ == "Texture0"@,
            p.texture.value == 0i32,
            p.texture.dirty,
            p.use_texture.name@ == "UseTexture0"@,
            p.use_texture.value == false,
            !p.use_texture.dirty,
            p.blend_mode is None,
    {
        BasicPipeline2D {
            program,
            // the identity matrix is the default matrix in the shader program.
            transform: ShaderParameter::new("Transform".to_string(), Mat3::identity(), false),
            texture: ShaderParameter::new("Texture0".to_string(), 0i32, true),
            use_texture: ShaderParameter::new("UseTexture0".to_string(), false, false),
            blend_mode: Option::None,
        }
    }

    /// The blend mode used when the pipeline is next applied.
    pub fn get_blend_mode(&self) -> (b: Option<BlendMode>)
        ensures
            b == self.blend_mode,
    {
        self.blend_mode
    }

    /// Requests the blend mode for the next application.
    pub fn set_blend_mode(&mut self, new: Option<BlendMode>)
        ensures
            *final(self) == pipe_set_blend(*old(self), new),
    {
        self.blend_mode = new;
    }

    /// The transform matrix used when the pipeline is next applied.
    pub fn get_transform(&self) -> (m: Mat3)
        ensures
            m == self.transform.value,
    {
        self.transform.value
    }

    /// Requests the transform matrix for the next application.
    pub fn set_transform(&mut self, new: Mat3)
        ensures
            *final(self) == pipe_set_transform(*old(self), new),
    {
        self.transform.set(new);
        proof {
            if old(self).transform.value@ == new@ {
                assert(old(self).transform.value == new);
            }
        }
    }

    /// The texture unit sampled when the pipeline is next applied, or
    /// `None` when the fragment stage falls back to solid vertex color.
    pub fn get_texture(&self) -> (t: Option<i32>)
        ensures
            t == if self.use_texture.value {
                Option::Some(self.texture.value)
            } else {
                Option::None::<i32>
            },
    {
        if self.use_texture.value {
            Option::Some(self.texture.value)
        } else {
            Option::None
        }
    }

    /// Requests the texture unit for the next application; `None` clears
    /// the use-texture flag consumed by the fragment stage.
    pub fn set_texture(&mut self, new: Option<i32>)
        ensures
            *final(self) == pipe_set_texture(*old(self), new),
    {
        match new {
            Option::Some(tex) => {
                self.texture.set(tex);
                self.use_texture.set(true);
            },
            Option::None => {
                self.use_texture.set(false);
            },
        }
    }

    /// Binds the program and pushes only what changed: dirty uniforms
    /// and, through the context's cache, the blend mode. Fails exactly
    /// when a dirty parameter misses from the program's uniform table or
    /// has an incompatible reflected type.
    pub fn apply(&mut self, ctx: &mut GraphicsContext) -> (r: Result<(), BackendError>)
        ensures
            apply_ok(*old(self)) ==> {
                &&& r == Ok::<(), BackendError>(())
                &&& *final(self) == apply_post(*old(self))
                &&& final(ctx).log@ == old(ctx).log@ + apply_cmds(*old(self), old(ctx).blend_mode)
                &&& final(ctx).blend_mode == old(self).blend_mode
                &&& final(ctx).screen_width == old(ctx).screen_width
                &&& final(ctx).screen_height == old(ctx).screen_height
                &&& final(ctx).pixel_projection == old(ctx).pixel_projection
            },
            !apply_ok(*old(self)) ==> apply_fail_post(
                *old(self),
                *final(self),
                *old(ctx),
                *final(ctx),
                r,
            ),
    {
        self.program.bind(ctx);
        let r1 = self.transform.set_uniform(&self.program, ctx);
        match r1 {
            Ok(()) => {},
            Err(e) => {
                return Err(e);
            },
        }
        let r2 = self.texture.set_uniform(&self.program, ctx);
        match r2 {
            Ok(()) => {},
            Err(e) => {
                proof {
                    assert(ctx.log@ =~= old(ctx).log@ + seq![
                        Command::UseProgram { program: old(self).program.id },
                    ] + param_apply_cmds(old(self).transform, old(self).program.uniforms@));
                }
                return Err(e);
            },
        }
        let r3 = self.use_texture.set_uniform(&self.program, ctx);
        match r3 {
            Ok(()) => {},
            Err(e) => {
                proof {
                    assert(ctx.log@ =~= old(ctx).log@ + seq![
                        Command::UseProgram { program: old(self).program.id },
                    ] + param_apply_cmds(old(self).transform, old(self).program.uniforms@)
                        + param_apply_cmds(old(self).texture, old(self).program.uniforms@));
                }
                return Err(e);
            },
        }
        ctx.set_blend_mode(self.blend_mode);
        proof {
            assert(final(ctx).log@ =~= old(ctx).log@ + apply_cmds(
                *old(self),
                old(ctx).blend_mode,
            ));
        }
        Ok(())
    }

    /// The vertex stage consumed by this pipeline, in GLSL 3.30.
    pub fn vertex_shader_330_core() -> &'static str {
        r"#version 330 core
    layout (location = 0) in vec2 Position;
    layout (location = 1) in vec2 TexCoord;
    layout (location = 2) in vec4 Color;

    out vec2 Vert_Frag_TexCoord;
    out vec4 Vert_Frag_Color;

    uniform mat3 Transform = mat3(1.0);

    void main()
    {
        vec3 transformed = Transform * vec3(Position, 1.0);
        gl_Position = vec4(transformed.xy, 0.0, 1.0);

        Vert_Frag_TexCoord = TexCoord;
        Vert_Frag_Color = Color;
    }"
    }

    /// The fragment stage consumed by this pipeline, in GLSL 3.30.
    pub fn fragment_shader_330_core() -> &'static str {
        r"#version 330 core
    in vec2 Vert_Frag_TexCoord;
    in vec4 Vert_Frag_Color;

    out vec4 FragColor;

    uniform sampler2D Texture0;
    uniform bool UseTexture0 = false;

    void main()
    {
        if(UseTexture0) {
            vec4 tex_color = texture(Texture0, Vert_Frag_TexCoord);
            FragColor = tex_color * Vert_Frag_Color;
        } else {
            FragColor = Vert_Frag_Color;
        }
    }"
    }
}

/// Whether the program's uniform table resolves all three pipeline
/// parameters with accepting types. A complete pipeline's `apply` can
/// never fail, whatever the dirty flags.
pub open spec fn pipeline_complete(p: &BasicPipeline2D) -> bool {
    &&& (lookup_spec(p.program.uniforms@, p.transform.name@) matches Option::Some(info)
        && <Mat3 as UniformValue>::allowed_kind(info.kind))
    &&& (lookup_spec(p.program.uniforms@, p.texture.name@) matches Option::Some(info) && <i32 as UniformValue>::allowed_kind(
        info.kind,
    ))
    &&& (lookup_spec(p.program.uniforms@, p.use_texture.name@) matches Option::Some(info)
        && <bool as UniformValue>::allowed_kind(info.kind))
}

impl BasicPipeline2D {
    /// Checks pipeline completeness at run time, so that an executor can
    /// reject a program whose reflection misses a pipeline uniform.
    pub fn is_complete(&self) -> (r: bool)
        ensures
            r == pipeline_complete(self),
    {
        let t_ok = match self.program.uniforms.get(&self.transform.name) {
            Option::Some(info) => self.transform.value.is_allowed_type(info.kind),
            Option::None => false,
        };
        let x_ok = match self.program.uniforms.get(&self.texture.name) {
            Option::Some(info) => self.texture.value.is_allowed_type(info.kind),
            Option::None => false,
        };
        let u_ok = match self.program.uniforms.get(&self.use_texture.name) {
            Option::Some(info) => self.use_texture.value.is_allowed_type(info.kind),
            Option::None => false,
        };
        t_ok && x_ok && u_ok
    }
}

/// Applying a pipeline a second time with no intervening `set_*` call
/// issues only the program bind: every dirty flag settled to false and
/// the tracker already remembers the pipeline's blend mode, so no
/// uniform upload and no blend call is repeated.
pub proof fn lemma_apply_idempotent(p: BasicPipeline2D)
    ensures
        apply_ok(apply_post(p)),
        apply_cmds(apply_post(p), p.blend_mode) == seq![
            Command::UseProgram { program: p.program.id },
        ],
        apply_post(apply_post(p)) == apply_post(p),
{
    let q = apply_post(p);
    assert(apply_cmds(q, p.blend_mode) =~= seq![Command::UseProgram { program: p.program.id }]);
}

} // verus!
