//! A sprite: one textured quad with a mutable transform decomposition.

use vstd::prelude::*;

use crate::commands::{BufferTarget, BufferUsage, Command};
use crate::fixed::{
    fx_mul_int, lemma_fx_mul_bound, lemma_fx_mul_neg, lemma_fx_mul_one, lemma_fx_mul_zero,
};
use crate::graphics::blend::BlendMode;
use crate::graphics::color::Color;
use crate::graphics::context::{Buffer, GraphicsContext, Program, Texture, VertexArray};
use crate::graphics::error::GraphicsError;
use crate::graphics::primitives::{
    apply_cmds, apply_post, pipe_set_blend, pipe_set_texture, pipe_set_transform,
    pipeline_complete, AttribKind, BasicPipeline2D, BasicVertex2D, RenderState, VertexAttrib,
};
use crate::graphics::rect::{rect_bounded, Rect};
use crate::graphics::texture::Texture2D;
use crate::graphics::transform::{
    mat3_bounded, mat_apply_spec, mat_mul_spec, rotate, rotate_spec, scale, scale_spec, translate,
    translate_spec, vec2_bounded, Mat3, Mat3Spec, Rotation, Vec2, Vec2Spec, MAT_ENTRY_MAX,
};

verus! {

/// Magnitude bound on a sprite's position and size scalars.
pub const SPRITE_COORD_MAX: i64 = 0x4_0000_0000;

/// Magnitude bound on a sprite's relative origin.
pub const SPRITE_ORIGIN_MAX: i64 = 0x1_0000;

/// Magnitude bound on a sprite's rotation cosine and sine.
pub const SPRITE_ROT_MAX: i64 = 0x2_0000;

/// The local transform of a sprite: translate by the negated origin,
/// rotate, scale by the size, then translate to the position, mapping
/// unit-quad local space into world space.
pub open spec fn local_transform_spec(
    position: Vec2Spec,
    size: Vec2Spec,
    origin: Vec2Spec,
    cos: int,
    sin: int,
) -> Mat3Spec {
    mat_mul_spec(
        mat_mul_spec(
            mat_mul_spec(translate_spec(position), scale_spec(size)),
            rotate_spec(cos, sin),
        ),
        translate_spec(Vec2Spec { x: -origin.x, y: -origin.y }),
    )
}

/// Round trip: a sprite's local transform maps the origin point of local
/// space exactly to the sprite's position, regardless of rotation. Every
/// rounded product of the composition reappears negated when the origin
/// is mapped, and truncation toward zero is odd, so the terms cancel
/// exactly.
pub proof fn lemma_local_transform_origin(
    position: Vec2Spec,
    size: Vec2Spec,
    origin: Vec2Spec,
    cos: int,
    sin: int,
)
    ensures
        mat_apply_spec(local_transform_spec(position, size, origin, cos, sin), origin)
            == position,
{
    lemma_fx_mul_one(size.x);
    lemma_fx_mul_one(size.y);
    lemma_fx_mul_zero(size.x);
    lemma_fx_mul_zero(size.y);
    lemma_fx_mul_zero(cos);
    lemma_fx_mul_zero(sin);
    lemma_fx_mul_zero(-sin);
    let b_xx = fx_mul_int(size.x, cos);
    let b_xy = fx_mul_int(size.x, -sin);
    let b_yx = fx_mul_int(size.y, sin);
    let b_yy = fx_mul_int(size.y, cos);
    lemma_fx_mul_zero(b_xx);
    lemma_fx_mul_zero(b_xy);
    lemma_fx_mul_zero(b_yx);
    lemma_fx_mul_zero(b_yy);
    lemma_fx_mul_one(b_xx);
    lemma_fx_mul_one(b_xy);
    lemma_fx_mul_one(b_yx);
    lemma_fx_mul_one(b_yy);
    lemma_fx_mul_neg(b_xx, origin.x);
    lemma_fx_mul_neg(b_xy, origin.y);
    lemma_fx_mul_neg(b_yx, origin.x);
    lemma_fx_mul_neg(b_yy, origin.y);
}

/// Configuration of a sprite before the backend objects are assembled.
#[derive(Debug)]
pub struct SpriteBuilder {
    /// The texture to draw.
    pub texture: Texture2D,
    /// The part of the texture that should be drawn (UV coordinates).
    pub source: Rect,
    /// The color that is multiplied with the texture color.
    pub tint: Color,
    /// The position of the origin in global coordinates.
    pub position: Vec2,
    /// The size of the sprite in global coordinates.
    pub size: Vec2,
    /// The origin for position and rotation in local coordinates where
    /// `(0, 0)` is the top-left and `(1, 1)` the bottom-right corner.
    pub origin: Vec2,
    /// Rotation angle around the origin.
    pub rotation: Rotation,
}

impl SpriteBuilder {
    /// A builder drawing the whole of `texture` at its pixel size.
    pub fn new(texture: Texture2D) -> (b: SpriteBuilder)
        ensures
            b.texture.spec_id() == texture.spec_id(),
            b.source == (Rect {
                top_left: Vec2 { x: 0, y: 0 },
                bottom_right: Vec2 { x: 65536, y: 65536 },
            }),
            b.tint == (Color { r: 65536, g: 65536, b: 65536, a: 65536 }),
            b.position == (Vec2 { x: 0, y: 0 }),
            b.size@.x == texture.spec_width() as int * 65536,
            b.size@.y == texture.spec_height() as int * 65536,
            b.origin == (Vec2 { x: 0, y: 0 }),
            b.rotation == (Rotation { cos: 65536, sin: 0 }),
    {
        let width = texture.width();
        let height = texture.height();
        SpriteBuilder {
            source: Rect::unit_square(),
            tint: Color::white(),
            position: Vec2 { x: 0, y: 0 },
            size: Vec2 { x: (width as i64) * 65536, y: (height as i64) * 65536 },
            origin: Vec2 { x: 0, y: 0 },
            rotation: Rotation::zero(),
            texture,
        }
    }

    /// Sets the source rectangle in UV coordinates.
    pub fn with_source(self, source: Rect) -> (r: SpriteBuilder)
        ensures
            r == (SpriteBuilder { source, ..self }),
    {
        SpriteBuilder { source, ..self }
    }

    /// Sets the tint color.
    pub fn with_tint(self, tint: Color) -> (r: SpriteBuilder)
        ensures
            r == (SpriteBuilder { tint, ..self }),
    {
        SpriteBuilder { tint, ..self }
    }

    /// Sets the relative origin.
    pub fn with_origin(self, origin: Vec2) -> (r: SpriteBuilder)
        ensures
            r == (SpriteBuilder { origin, ..self }),
    {
        SpriteBuilder { origin, ..self }
    }

    /// Sets the position.
    pub fn with_position(self, position: Vec2) -> (r: SpriteBuilder)
        ensures
            r == (SpriteBuilder { position, ..self }),
    {
        SpriteBuilder { position, ..self }
    }

    /// Sets the size.
    pub fn with_size(self, size: Vec2) -> (r: SpriteBuilder)
        ensures
            r == (SpriteBuilder { size, ..self }),
    {
        SpriteBuilder { size, ..self }
    }

    /// Assembles the sprite around its backend objects.
    pub fn build(
        self,
        ctx: &mut GraphicsContext,
        pipeline: BasicPipeline2D,
        vbo: Buffer,
        vao: VertexArray,
    ) -> (s: Sprite)
        requires
            pipeline_complete(&pipeline),
            vec2_bounded(self.position@, SPRITE_COORD_MAX as int),
            vec2_bounded(self.size@, SPRITE_COORD_MAX as int),
            vec2_bounded(self.origin@, SPRITE_ORIGIN_MAX as int),
            -SPRITE_ROT_MAX <= self.rotation.cos <= SPRITE_ROT_MAX,
            -SPRITE_ROT_MAX <= self.rotation.sin <= SPRITE_ROT_MAX,
        ensures
            sprite_new_post(*old(ctx), *final(ctx), s, pipeline, vbo, vao, self),
    {
        Sprite::new(
            ctx,
            pipeline,
            vbo,
            vao,
            self.texture,
            self.source,
            self.position,
            self.size,
            self.origin,
            self.rotation,
            self.tint,
        )
    }
}

/// A drawable sprite: a shared pipeline configured for alpha-blended
/// texturing, a four-vertex strip baked with the source rectangle and
/// tint, and the mutable transform decomposition.
#[derive(Debug)]
pub struct Sprite {
    pub pipeline: BasicPipeline2D,
    /// Vertex buffer object.
    pub vbo: Buffer,
    pub vao: VertexArray,
    pub texture: Texture2D,
    pub source: Rect,
    pub tint: Color,
    /// The position of the origin in global coordinates.
    pub position: Vec2,
    /// The size of the sprite in global coordinates.
    pub size: Vec2,
    /// The origin for position and rotation in local coordinates where
    /// `(0, 0)` is the top-left and `(1, 1)` the bottom-right corner.
    pub origin: Vec2,
    /// Rotation angle around the origin.
    pub rotation: Rotation,
}

/// The four strip vertices of a sprite: the unit quad with the source
/// rectangle's corners as texture coordinates and the tint baked in.
pub open spec fn sprite_vertices(source: Rect, tint: Color) -> Seq<BasicVertex2D> {
    let tl = source.top_left;
    let br = source.bottom_right;
    seq![
        BasicVertex2D { position: Vec2 { x: 0, y: 0 }, tex_coord: Vec2 { x: tl.x, y: tl.y }, color: tint },
        BasicVertex2D {
            position: Vec2 { x: 65536, y: 0 },
            tex_coord: Vec2 { x: br.x, y: tl.y },
            color: tint,
        },
        BasicVertex2D {
            position: Vec2 { x: 0, y: 65536 },
            tex_coord: Vec2 { x: tl.x, y: br.y },
            color: tint,
        },
        BasicVertex2D {
            position: Vec2 { x: 65536, y: 65536 },
            tex_coord: Vec2 { x: br.x, y: br.y },
            color: tint,
        },
    ]
}

/// The contract of sprite assembly: the fields are taken over, the
/// pipeline is configured for alpha blending on texture unit zero, and
/// the log gains the one-time vertex upload and layout setup.
pub open spec fn sprite_new_post(
    pre: GraphicsContext,
    post: GraphicsContext,
    s: Sprite,
    pipeline: BasicPipeline2D,
    vbo: Buffer,
    vao: VertexArray,
    b: SpriteBuilder,
) -> bool {
    let n = pre.log.len() as int;
    &&& s.pipeline == pipe_set_texture(
        pipe_set_blend(
            pipeline,
            Option::Some(
                BlendMode {
                    func_rgb: crate::graphics::blend::BlendFunc::Add,
                    func_alpha: crate::graphics::blend::BlendFunc::Add,
                    src_rgb: crate::graphics::blend::BlendParam::SrcAlpha,
                    src_alpha: crate::graphics::blend::BlendParam::One,
                    dst_rgb: crate::graphics::blend::BlendParam::OneMinusSrcAlpha,
                    dst_alpha: crate::graphics::blend::BlendParam::Zero,
                },
            ),
        ),
        Option::Some(0i32),
    )
    &&& s.vbo == vbo
    &&& s.vao == vao
    &&& s.texture.spec_id() == b.texture.spec_id()
    &&& s.source == b.source
    &&& s.tint == b.tint
    &&& s.position == b.position
    &&& s.size == b.size
    &&& s.origin == b.origin
    &&& s.rotation == b.rotation
    &&& s.wf()
    &&& post.log@.len() == n + 11
    &&& post.log@.take(n) == pre.log@
    &&& post.log@[n] == (Command::BindVertexArray { array: vao.id })
    &&& post.log@[n + 1int] == (Command::BindBuffer {
        target: BufferTarget::Vertex,
        buffer: vbo.id,
    })
    &&& (post.log@[n + 2int] matches Command::UploadVertices { target, vertices, usage }
        && target == BufferTarget::Vertex && vertices@ == sprite_vertices(b.source, b.tint)
        && usage == BufferUsage::StaticDraw)
    &&& post.log@[n + 3int] == (Command::VertexAttribPointer {
        attrib: VertexAttrib {
            index: 0,
            size: 2,
            kind: AttribKind::Float,
            normalized: false,
            stride: 32,
            offset: 0,
        },
    })
    &&& post.log@[n + 4int] == (Command::EnableVertexAttribArray { index: 0 })
    &&& post.log@[n + 5int] == (Command::VertexAttribPointer {
        attrib: VertexAttrib {
            index: 1,
            size: 2,
            kind: AttribKind::Float,
            normalized: false,
            stride: 32,
            offset: 8,
        },
    })
    &&& post.log@[n + 6int] == (Command::EnableVertexAttribArray { index: 1 })
    &&& post.log@[n + 7int] == (Command::VertexAttribPointer {
        attrib: VertexAttrib {
            index: 2,
            size: 4,
            kind: AttribKind::Float,
            normalized: false,
            stride: 32,
            offset: 16,
        },
    })
    &&& post.log@[n + 8int] == (Command::EnableVertexAttribArray { index: 2 })
    &&& post.log@[n + 9int] == (Command::BindBuffer { target: BufferTarget::Vertex, buffer: 0 })
    &&& post.log@[n + 10int] == (Command::BindVertexArray { array: 0 })
    &&& crate::graphics::context::ctx_same_state(pre, post)
}

impl Sprite {
    /// The transform decomposition stays inside the fixed-point ranges
    /// and the pipeline resolves its uniforms.
    pub open spec fn wf(&self) -> bool {
        &&& vec2_bounded(self.position@, SPRITE_COORD_MAX as int)
        &&& vec2_bounded(self.size@, SPRITE_COORD_MAX as int)
        &&& vec2_bounded(self.origin@, SPRITE_ORIGIN_MAX as int)
        &&& -SPRITE_ROT_MAX <= self.rotation.cos <= SPRITE_ROT_MAX
        &&& -SPRITE_ROT_MAX <= self.rotation.sin <= SPRITE_ROT_MAX
        &&& pipeline_complete(&self.pipeline)
    }

    /// Starts building a sprite for `texture`.
    pub fn build(texture: Texture2D) -> (b: SpriteBuilder)
        ensures
            b.texture.spec_id() == texture.spec_id(),
            b.source == (Rect {
                top_left: Vec2 { x: 0, y: 0 },
                bottom_right: Vec2 { x: 65536, y: 65536 },
            }),
            b.tint == (Color { r: 65536, g: 65536, b: 65536, a: 65536 }),
            b.position == (Vec2 { x: 0, y: 0 }),
            b.size@.x == texture.spec_width() as int * 65536,
            b.size@.y == texture.spec_height() as int * 65536,
            b.origin == (Vec2 { x: 0, y: 0 }),
            b.rotation == (Rotation { cos: 65536, sin: 0 }),
    {
        SpriteBuilder::new(texture)
    }

    /// Assembles a sprite: configures the pipeline for alpha blending on
    /// texture unit zero and uploads the four strip vertices once.
    pub fn new(
        ctx: &mut GraphicsContext,
        pipeline: BasicPipeline2D,
        vbo: Buffer,
        vao: VertexArray,
        texture: Texture2D,
        source: Rect,
        position: Vec2,
        size: Vec2,
        origin: Vec2,
        rotation: Rotation,
        tint: Color,
    ) -> (s: Sprite)
        requires
            pipeline_complete(&pipeline),
            vec2_bounded(position@, SPRITE_COORD_MAX as int),
            vec2_bounded(size@, SPRITE_COORD_MAX as int),
            vec2_bounded(origin@, SPRITE_ORIGIN_MAX as int),
            -SPRITE_ROT_MAX <= rotation.cos <= SPRITE_ROT_MAX,
            -SPRITE_ROT_MAX <= rotation.sin <= SPRITE_ROT_MAX,
        ensures
            sprite_new_post(
                *old(ctx),
                *final(ctx),
                s,
                pipeline,
                vbo,
                vao,
                SpriteBuilder { texture, source, tint, position, size, origin, rotation },
            ),
    {
        let mut pipeline = pipeline;
        // Render sprites with alpha blending by default
        pipeline.set_blend_mode(Option::Some(BlendMode::alpha()));
        // Always use the first texture unit
        pipeline.set_texture(Option::Some(0));

        vao.bind(ctx);
        Buffer::bind(ctx, BufferTarget::Vertex, &vbo);
        let mut vertices: Vec<BasicVertex2D> = Vec::new();
        vertices.push(
            BasicVertex2D {
                position: Vec2 { x: 0, y: 0 },
                tex_coord: Vec2 { x: source.top_left.x, y: source.top_left.y },
                color: tint,
            },
        );
        vertices.push(
            BasicVertex2D {
                position: Vec2 { x: 65536, y: 0 },
                tex_coord: Vec2 { x: source.bottom_right.x, y: source.top_left.y },
                color: tint,
            },
        );
        vertices.push(
            BasicVertex2D {
                position: Vec2 { x: 0, y: 65536 },
                tex_coord: Vec2 { x: source.top_left.x, y: source.bottom_right.y },
                color: tint,
            },
        );
        vertices.push(
            BasicVertex2D {
                position: Vec2 { x: 65536, y: 65536 },
                tex_coord: Vec2 { x: source.bottom_right.x, y: source.bottom_right.y },
                color: tint,
            },
        );
        proof {
            assert(vertices@ =~= sprite_vertices(source, tint));
        }
        let uploaded = Buffer::data_vertices(
            ctx,
            BufferTarget::Vertex,
            &vertices,
            BufferUsage::StaticDraw,
        );
        match uploaded {
            Ok(()) => {},
            Err(_) => {
                proof {
                    assert(false);
                }
                return vstd::pervasive::unreached();
            },
        }
        let ghost log_up = ctx.log@;
        let attribs = BasicVertex2D::attributes();
        ctx.emit(Command::VertexAttribPointer { attrib: attribs[0] });
        ctx.emit(Command::EnableVertexAttribArray { index: attribs[0].index });
        ctx.emit(Command::VertexAttribPointer { attrib: attribs[1] });
        ctx.emit(Command::EnableVertexAttribArray { index: attribs[1].index });
        ctx.emit(Command::VertexAttribPointer { attrib: attribs[2] });
        ctx.emit(Command::EnableVertexAttribArray { index: attribs[2].index });
        Buffer::unbind(ctx, BufferTarget::Vertex);
        VertexArray::unbind(ctx);
        proof {
            let n = old(ctx).log@.len() as int;
            let lb = old(ctx).log@ + seq![
                Command::BindVertexArray { array: vao.id },
                Command::BindBuffer { target: BufferTarget::Vertex, buffer: vbo.id },
            ];
            assert(log_up.drop_last() == lb);
            assert(forall|j: int| 0 <= j < lb.len() ==> log_up[j] == log_up.drop_last()[j]);
            assert(ctx.log@ =~= log_up + seq![
                Command::VertexAttribPointer {
                    attrib: VertexAttrib {
                        index: 0,
                        size: 2,
                        kind: AttribKind::Float,
                        normalized: false,
                        stride: 32,
                        offset: 0,
                    },
                },
                Command::EnableVertexAttribArray { index: 0 },
                Command::VertexAttribPointer {
                    attrib: VertexAttrib {
                        index: 1,
                        size: 2,
                        kind: AttribKind::Float,
                        normalized: false,
                        stride: 32,
                        offset: 8,
                    },
                },
                Command::EnableVertexAttribArray { index: 1 },
                Command::VertexAttribPointer {
                    attrib: VertexAttrib {
                        index: 2,
                        size: 4,
                        kind: AttribKind::Float,
                        normalized: false,
                        stride: 32,
                        offset: 16,
                    },
                },
                Command::EnableVertexAttribArray { index: 2 },
                Command::BindBuffer { target: BufferTarget::Vertex, buffer: 0 },
                Command::BindVertexArray { array: 0 },
            ]);
            assert(ctx.log@.take(n) =~= old(ctx).log@);
            assert(ctx.log@[n] == (Command::BindVertexArray { array: vao.id }));
            assert(ctx.log@[n + 1int] == (Command::BindBuffer {
                target: BufferTarget::Vertex,
                buffer: vbo.id,
            }));
            assert(ctx.log@[n + 2int] == log_up.last());
        }
        Sprite {
            pipeline,
            vbo,
            vao,
            texture,
            source,
            position,
            size,
            tint,
            origin,
            rotation,
        }
    }

    /// The underlying texture of this sprite.
    pub fn texture(&self) -> (t: &Texture2D)
        ensures
            t.spec_id() == self.texture.spec_id(),
    {
        &self.texture
    }

    /// The tint color of this sprite that is multiplied with the texture
    /// color. The tint is baked into the vertex buffer and cannot be
    /// changed after creating the sprite.
    pub fn tint(&self) -> (c: Color)
        ensures
            c == self.tint,
    {
        self.tint
    }

    /// The part of the texture that is used for rendering this sprite,
    /// given in normalized UV coordinates. The source rectangle is baked
    /// into the vertex buffer and cannot be changed after creation.
    pub fn source(&self) -> (r: Rect)
        ensures
            r == self.source,
    {
        self.source
    }

    /// The position of the origin in global coordinates.
    pub fn position(&self) -> (p: Vec2)
        ensures
            p == self.position,
    {
        self.position
    }

    /// Moves the sprite.
    pub fn set_position(&mut self, pos: Vec2)
        requires
            vec2_bounded(pos@, SPRITE_COORD_MAX as int),
        ensures
            *final(self) == (Sprite { position: pos, ..*old(self) }),
    {
        self.position = pos;
    }

    /// The rotation around the origin.
    pub fn rotation(&self) -> (r: Rotation)
        ensures
            r == self.rotation,
    {
        self.rotation
    }

    /// Rotates the sprite around its origin.
    pub fn set_rotation(&mut self, angle: Rotation)
        requires
            -SPRITE_ROT_MAX <= angle.cos <= SPRITE_ROT_MAX,
            -SPRITE_ROT_MAX <= angle.sin <= SPRITE_ROT_MAX,
        ensures
            *final(self) == (Sprite { rotation: angle, ..*old(self) }),
    {
        self.rotation = angle;
    }

    /// The origin for position and rotation in local coordinates.
    pub fn origin(&self) -> (o: Vec2)
        ensures
            o == self.origin,
    {
        self.origin
    }

    /// Moves the origin.
    pub fn set_origin(&mut self, origin: Vec2)
        requires
            vec2_bounded(origin@, SPRITE_ORIGIN_MAX as int),
        ensures
            *final(self) == (Sprite { origin, ..*old(self) }),
    {
        self.origin = origin;
    }

    /// The matrix mapping unit-quad local space into world space:
    /// translate(-origin), rotate, scale(size), translate(position),
    /// composed right to left.
    pub fn local_transform(&self) -> (m: Mat3)
        requires
            self.wf(),
        ensures
            m@ == local_transform_spec(
                self.position@,
                self.size@,
                self.origin@,
                self.rotation.cos as int,
                self.rotation.sin as int,
            ),
            mat3_bounded(m@, MAT_ENTRY_MAX as int),
    {
        let origin_m = translate(Vec2 { x: -self.origin.x, y: -self.origin.y });
        let rotate_m = rotate(self.rotation);
        let scale_m = scale(self.size);
        let position_m = translate(self.position);
        let a = position_m.compose(&scale_m);
        proof {
            lemma_mat_bounds_step_a(self.position@, self.size@);
        }
        let b = a.compose(&rotate_m);
        proof {
            lemma_mat_bounds_step_b(a@, self.rotation.cos as int, self.rotation.sin as int);
        }
        let m = b.compose(&origin_m);
        proof {
            lemma_mat_bounds_step_c(b@, self.origin@);
        }
        m
    }

    /// Draws the sprite: composes its local transform into the ambient
    /// transform, applies the pipeline, binds the texture and issues one
    /// four-vertex strip draw call; see [`sprite_draw_post`].
    pub fn draw(&mut self, ctx: &mut GraphicsContext, state: RenderState) -> (r: Result<
        (),
        GraphicsError,
    >)
        requires
            old(self).wf(),
            mat3_bounded(state.transform@, 0x4_0000),
        ensures
            sprite_draw_post(*old(self), *final(self), *old(ctx), *final(ctx), state, r),
    {
        let local = self.local_transform();
        let transform = state.transform.compose(&local);
        self.pipeline.set_transform(transform);
        let applied = self.pipeline.apply(ctx);
        match applied {
            Ok(()) => {},
            Err(_) => {
                proof {
                    assert(crate::graphics::primitives::apply_ok(
                        pipe_set_transform(old(self).pipeline, transform),
                    ));
                    assert(false);
                }
                return vstd::pervasive::unreached();
            },
        }
        self.vao.bind(ctx);
        ctx.emit(Command::ActiveTexture { unit: 0 });
        Texture::bind(ctx, self.texture.raw());
        ctx.emit(
            Command::DrawArrays {
                mode: crate::commands::PrimitiveMode::TriangleStrip,
                first: 0,
                count: 4,
            },
        );
        Texture::unbind(ctx);
        VertexArray::unbind(ctx);
        Program::unbind(ctx);
        proof {
            assert(final(ctx).log@ =~= old(ctx).log@ + apply_cmds(
                pipe_set_transform(old(self).pipeline, transform),
                old(ctx).blend_mode,
            ) + seq![
                Command::BindVertexArray { array: old(self).vao.id },
                Command::ActiveTexture { unit: 0 },
                Command::BindTexture { texture: old(self).texture.spec_id() },
                Command::DrawArrays {
                    mode: crate::commands::PrimitiveMode::TriangleStrip,
                    first: 0,
                    count: 4,
                },
                Command::BindTexture { texture: 0 },
                Command::BindVertexArray { array: 0 },
                Command::UseProgram { program: 0 },
            ]);
        }
        Ok(())
    }
}

/// The contract of [`Sprite::draw`]: the ambient transform composed with
/// the local transform is pushed through the pipeline, and exactly one
/// four-vertex strip draw call is issued with the layout object and
/// texture bound around it and everything unbound afterwards.
pub open spec fn sprite_draw_post(
    pre: Sprite,
    post: Sprite,
    pre_ctx: GraphicsContext,
    post_ctx: GraphicsContext,
    state: RenderState,
    r: Result<(), GraphicsError>,
) -> bool {
    let m = mat3_of(
        mat_mul_spec(
            state.transform@,
            local_transform_spec(
                pre.position@,
                pre.size@,
                pre.origin@,
                pre.rotation.cos as int,
                pre.rotation.sin as int,
            ),
        ),
    );
    let p1 = pipe_set_transform(pre.pipeline, m);
    &&& r == Ok::<(), GraphicsError>(())
    &&& post == (Sprite { pipeline: apply_post(p1), ..pre })
    &&& post_ctx.blend_mode == p1.blend_mode
    &&& post_ctx.log@ == pre_ctx.log@ + apply_cmds(p1, pre_ctx.blend_mode) + seq![
        Command::BindVertexArray { array: pre.vao.id },
        Command::ActiveTexture { unit: 0 },
        Command::BindTexture { texture: pre.texture.spec_id() },
        Command::DrawArrays {
            mode: crate::commands::PrimitiveMode::TriangleStrip,
            first: 0,
            count: 4,
        },
        Command::BindTexture { texture: 0 },
        Command::BindVertexArray { array: 0 },
        Command::UseProgram { program: 0 },
    ]
    &&& post_ctx.screen_width == pre_ctx.screen_width
    &&& post_ctx.screen_height == pre_ctx.screen_height
    &&& post_ctx.pixel_projection == pre_ctx.pixel_projection
}

/// The matrix whose entries hold the given mathematical values.
pub open spec fn mat3_of(m: Mat3Spec) -> Mat3 {
    Mat3 {
        xx: m.xx as i64,
        xy: m.xy as i64,
        tx: m.tx as i64,
        yx: m.yx as i64,
        yy: m.yy as i64,
        ty: m.ty as i64,
    }
}

/// Bounds the product of a translation and a scale.
proof fn lemma_mat_bounds_step_a(position: Vec2Spec, size: Vec2Spec)
    requires
        vec2_bounded(position, 0x4_0000_0000),
        vec2_bounded(size, 0x4_0000_0000),
    ensures
        mat3_bounded(mat_mul_spec(translate_spec(position), scale_spec(size)), 0x4_0000_0000),
{
    lemma_fx_mul_bound(65536, size.x, 65536, 0x4_0000_0000);
    lemma_fx_mul_bound(65536, size.y, 65536, 0x4_0000_0000);
    lemma_fx_mul_bound(0, size.x, 0, 0x4_0000_0000);
    lemma_fx_mul_bound(0, size.y, 0, 0x4_0000_0000);
    lemma_fx_mul_bound(65536, 0, 65536, 0);
    lemma_fx_mul_bound(0, 0, 0, 0);
}

/// Bounds the further product with a rotation.
proof fn lemma_mat_bounds_step_b(a: Mat3Spec, cos: int, sin: int)
    requires
        mat3_bounded(a, 0x4_0000_0000),
        -0x2_0000 <= cos <= 0x2_0000,
        -0x2_0000 <= sin <= 0x2_0000,
    ensures
        mat3_bounded(mat_mul_spec(a, rotate_spec(cos, sin)), 0x10_0000_0000),
{
    lemma_fx_mul_bound(a.xx, cos, 0x4_0000_0000, 0x2_0000);
    lemma_fx_mul_bound(a.xx, sin, 0x4_0000_0000, 0x2_0000);
    lemma_fx_mul_bound(a.xx, -sin, 0x4_0000_0000, 0x2_0000);
    lemma_fx_mul_bound(a.xy, cos, 0x4_0000_0000, 0x2_0000);
    lemma_fx_mul_bound(a.xy, sin, 0x4_0000_0000, 0x2_0000);
    lemma_fx_mul_bound(a.xy, -sin, 0x4_0000_0000, 0x2_0000);
    lemma_fx_mul_bound(a.yx, cos, 0x4_0000_0000, 0x2_0000);
    lemma_fx_mul_bound(a.yx, sin, 0x4_0000_0000, 0x2_0000);
    lemma_fx_mul_bound(a.yx, -sin, 0x4_0000_0000, 0x2_0000);
    lemma_fx_mul_bound(a.yy, cos, 0x4_0000_0000, 0x2_0000);
    lemma_fx_mul_bound(a.yy, sin, 0x4_0000_0000, 0x2_0000);
    lemma_fx_mul_bound(a.yy, -sin, 0x4_0000_0000, 0x2_0000);
    lemma_fx_mul_bound(a.xx, 0, 0x4_0000_0000, 0);
    lemma_fx_mul_bound(a.xy, 0, 0x4_0000_0000, 0);
    lemma_fx_mul_bound(a.yx, 0, 0x4_0000_0000, 0);
    lemma_fx_mul_bound(a.yy, 0, 0x4_0000_0000, 0);
}

/// Bounds the final product with the origin translation.
proof fn lemma_mat_bounds_step_c(b: Mat3Spec, origin: Vec2Spec)
    requires
        mat3_bounded(b, 0x10_0000_0000),
        vec2_bounded(origin, 0x1_0000),
    ensures
        mat3_bounded(
            mat_mul_spec(b, translate_spec(Vec2Spec { x: -origin.x, y: -origin.y })),
            0x40_0000_0000,
        ),
{
    lemma_fx_mul_bound(b.xx, 65536, 0x10_0000_0000, 65536);
    lemma_fx_mul_bound(b.xy, 65536, 0x10_0000_0000, 65536);
    lemma_fx_mul_bound(b.yx, 65536, 0x10_0000_0000, 65536);
    lemma_fx_mul_bound(b.yy, 65536, 0x10_0000_0000, 65536);
    lemma_fx_mul_bound(b.xx, 0, 0x10_0000_0000, 0);
    lemma_fx_mul_bound(b.xy, 0, 0x10_0000_0000, 0);
    lemma_fx_mul_bound(b.yx, 0, 0x10_0000_0000, 0);
    lemma_fx_mul_bound(b.yy, 0, 0x10_0000_0000, 0);
    lemma_fx_mul_bound(b.xx, -origin.x, 0x10_0000_0000, 0x1_0000);
    lemma_fx_mul_bound(b.xy, -origin.y, 0x10_0000_0000, 0x1_0000);
    lemma_fx_mul_bound(b.yx, -origin.x, 0x10_0000_0000, 0x1_0000);
    lemma_fx_mul_bound(b.yy, -origin.y, 0x10_0000_0000, 0x1_0000);
}

} // verus!
