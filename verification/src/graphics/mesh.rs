//! A generic 2D triangle mesh: immutable indexed geometry uploaded once.

use vstd::prelude::*;

use crate::commands::{BufferTarget, BufferUsage, Command};
use crate::graphics::context::{
    ctx_same_state, lookup_spec, BackendError, Buffer, GraphicsContext, Program, UniformKind,
    UniformValue, VertexArray,
};
use crate::graphics::error::GraphicsError;
use crate::graphics::primitives::{AttribKind, RenderState, VertexAttrib};
use crate::graphics::transform::{Mat3, Vec2};

verus! {

/// An indexed triangle list: its own program, the two geometry buffers,
/// the layout object, and the fixed index count drawn per call.
#[derive(Debug)]
pub struct Mesh {
    pub program: Program,
    /// Vertex buffer object.
    pub vbo: Buffer,
    /// Elements buffer object.
    pub ebo: Buffer,
    pub vao: VertexArray,
    pub num_elements: i32,
}

/// The contract of mesh assembly: oversized geometry is rejected before
/// any driver call, otherwise both buffers are uploaded once under the
/// layout object.
pub open spec fn mesh_new_post(
    pre: GraphicsContext,
    post: GraphicsContext,
    r: Result<Mesh, BackendError>,
    program_id: u32,
    vbo_id: u32,
    ebo_id: u32,
    vao_id: u32,
    vertices: Seq<Vec2>,
    indices: Seq<u32>,
) -> bool {
    let n = pre.log.len() as int;
    if vertices.len() > 0xFFFF_FFFF || indices.len() > 0x7FFF_FFFF {
        r matches Err(e) && e == BackendError::TooLarge && post == pre
    } else {
        &&& r matches Ok(m) && m.program.id == program_id && m.vbo.id == vbo_id && m.ebo.id
            == ebo_id && m.vao.id == vao_id && m.num_elements == indices.len()
        &&& post.log@.len() == n + 9
        &&& post.log@.take(n) == pre.log@
        &&& post.log@[n] == (Command::BindVertexArray { array: vao_id })
        &&& post.log@[n + 1int] == (Command::BindBuffer {
            target: BufferTarget::Vertex,
            buffer: vbo_id,
        })
        &&& post.log@[n + 2int] == (Command::BindBuffer {
            target: BufferTarget::Element,
            buffer: ebo_id,
        })
        &&& (post.log@[n + 3int] matches Command::UploadPositions { target, positions, usage }
            && target == BufferTarget::Vertex && positions@ == vertices && usage
            == BufferUsage::StaticDraw)
        &&& (post.log@[n + 4int] matches Command::UploadIndices { target, indices: idx, usage }
            && target == BufferTarget::Element && idx@ == indices && usage
            == BufferUsage::StaticDraw)
        &&& post.log@[n + 5int] == (Command::VertexAttribPointer {
            attrib: VertexAttrib {
                index: 0,
                size: 2,
                kind: AttribKind::Float,
                normalized: false,
                stride: 8,
                offset: 0,
            },
        })
        &&& post.log@[n + 6int] == (Command::EnableVertexAttribArray { index: 0 })
        &&& post.log@[n + 7int] == (Command::BindBuffer {
            target: BufferTarget::Vertex,
            buffer: 0,
        })
        &&& post.log@[n + 8int] == (Command::BindVertexArray { array: 0 })
        &&& ctx_same_state(pre, post)
    }
}

/// The contract of [`Mesh::draw`]: the mesh is untouched; with a matrix
/// uniform named `model_view_projection` the full six-command draw
/// sequence is issued, otherwise the typed uniform error comes back with
/// only the program bind logged.
pub open spec fn mesh_draw_post(
    pre: Mesh,
    post: Mesh,
    pre_ctx: GraphicsContext,
    post_ctx: GraphicsContext,
    state: RenderState,
    r: Result<(), GraphicsError>,
) -> bool {
    &&& post == pre
    &&& ctx_same_state(pre_ctx, post_ctx)
    &&& ({
        let found = lookup_spec(pre.program.uniforms@, "model_view_projection"@);
        match found {
            Option::None => {
                &&& (r matches Err(e) && (e matches GraphicsError::Backend(be) && (
                be matches BackendError::NoSuchUniform { uniform } && uniform@
                    == "model_view_projection"@)))
                &&& post_ctx.log@ == pre_ctx.log@ + seq![
                    Command::UseProgram { program: pre.program.id },
                ]
            },
            Option::Some(info) => if <Mat3 as UniformValue>::allowed_kind(info.kind) {
                &&& r == Ok::<(), GraphicsError>(())
                &&& post_ctx.log@ == pre_ctx.log@ + seq![
                    Command::UseProgram { program: pre.program.id },
                    Command::UniformMat3 { location: info.location, value: state.transform },
                    Command::BindVertexArray { array: pre.vao.id },
                    Command::DrawElements { count: pre.num_elements },
                    Command::BindVertexArray { array: 0 },
                    Command::UseProgram { program: 0 },
                ]
            } else {
                &&& (r matches Err(e) && (e matches GraphicsError::Backend(be) && (
                be matches BackendError::UniformType { uniform, uniform_type } && uniform@
                    == "model_view_projection"@ && uniform_type == info.kind)))
                &&& post_ctx.log@ == pre_ctx.log@ + seq![
                    Command::UseProgram { program: pre.program.id },
                ]
            },
        }
    })
}

impl Mesh {
    /// Assembles a mesh: rejects geometry beyond the driver's index
    /// ranges with `TooLarge`, then uploads vertex and index data once.
    pub fn new(
        ctx: &mut GraphicsContext,
        program: Program,
        vbo: Buffer,
        ebo: Buffer,
        vao: VertexArray,
        vertices: &Vec<Vec2>,
        indices: &Vec<u32>,
    ) -> (r: Result<Mesh, BackendError>)
        ensures
            mesh_new_post(
                *old(ctx),
                *final(ctx),
                r,
                program.id,
                vbo.id,
                ebo.id,
                vao.id,
                vertices@,
                indices@,
            ),
    {
        if vertices.len() > 0xFFFF_FFFFusize {
            return Err(BackendError::TooLarge);
        }
        if indices.len() > 0x7FFF_FFFFusize {
            return Err(BackendError::TooLarge);
        }

        vao.bind(ctx);
        Buffer::bind(ctx, BufferTarget::Vertex, &vbo);
        // The element binding point is a property of the layout object.
        Buffer::bind(ctx, BufferTarget::Element, &ebo);
        let up_v = Buffer::data_positions(ctx, BufferTarget::Vertex, vertices, BufferUsage::StaticDraw);
        match up_v {
            Ok(()) => {},
            Err(_) => {
                proof {
                    assert(false);
                }
                return vstd::pervasive::unreached();
            },
        }
        let ghost log_v = ctx.log@;
        let up_i = Buffer::data_indices(ctx, BufferTarget::Element, indices, BufferUsage::StaticDraw);
        match up_i {
            Ok(()) => {},
            Err(_) => {
                proof {
                    assert(false);
                }
                return vstd::pervasive::unreached();
            },
        }
        let ghost log_i = ctx.log@;
        ctx.emit(
            Command::VertexAttribPointer {
                attrib: VertexAttrib {
                    index: 0,
                    size: 2,
                    kind: AttribKind::Float,
                    normalized: false,
                    stride: 8,
                    offset: 0,
                },
            },
        );
        ctx.emit(Command::EnableVertexAttribArray { index: 0 });
        Buffer::unbind(ctx, BufferTarget::Vertex);
        VertexArray::unbind(ctx);
        proof {
            let n = old(ctx).log@.len() as int;
            let l3 = old(ctx).log@ + seq![
                Command::BindVertexArray { array: vao.id },
                Command::BindBuffer { target: BufferTarget::Vertex, buffer: vbo.id },
                Command::BindBuffer { target: BufferTarget::Element, buffer: ebo.id },
            ];
            assert(log_v.drop_last() == l3);
            assert(forall|j: int| 0 <= j < l3.len() ==> log_v[j] == log_v.drop_last()[j]);
            assert(log_i.drop_last() == log_v);
            assert(forall|j: int| 0 <= j < log_v.len() ==> log_i[j] == log_i.drop_last()[j]);
            assert(ctx.log@ =~= log_i + seq![
                Command::VertexAttribPointer {
                    attrib: VertexAttrib {
                        index: 0,
                        size: 2,
                        kind: AttribKind::Float,
                        normalized: false,
                        stride: 8,
                        offset: 0,
                    },
                },
                Command::EnableVertexAttribArray { index: 0 },
                Command::BindBuffer { target: BufferTarget::Vertex, buffer: 0 },
                Command::BindVertexArray { array: 0 },
            ]);
            assert(ctx.log@.take(n) =~= old(ctx).log@);
            assert(ctx.log@[n] == (Command::BindVertexArray { array: vao.id }));
            assert(ctx.log@[n + 1int] == (Command::BindBuffer {
                target: BufferTarget::Vertex,
                buffer: vbo.id,
            }));
            assert(ctx.log@[n + 2int] == (Command::BindBuffer {
                target: BufferTarget::Element,
                buffer: ebo.id,
            }));
            assert(ctx.log@[n + 3int] == log_v.last());
            assert(ctx.log@[n + 4int] == log_i.last());
        }
        Ok(Mesh { program, vbo, ebo, vao, num_elements: indices.len() as i32 })
    }

    /// Draws the mesh: binds its program, assigns the ambient transform
    /// to the `model_view_projection` uniform, and issues one indexed
    /// draw call covering all indices. Fails exactly when the program's
    /// reflection has no matrix uniform of that name, leaving only the
    /// program bind in the log; see [`mesh_draw_post`].
    pub fn draw(&mut self, ctx: &mut GraphicsContext, state: RenderState) -> (r: Result<
        (),
        GraphicsError,
    >)
        ensures
            mesh_draw_post(*old(self), *final(self), *old(ctx), *final(ctx), state, r),
    {
        self.program.bind(ctx);
        let name = "model_view_projection".to_string();
        let assigned = self.program.set_uniform(ctx, &name, &state.transform);
        match assigned {
            Ok(()) => {},
            Err(e) => {
                return Err(GraphicsError::Backend(e));
            },
        }
        self.vao.bind(ctx);
        ctx.emit(Command::DrawElements { count: self.num_elements });
        VertexArray::unbind(ctx);
        Program::unbind(ctx);
        proof {
            let found = lookup_spec(self.program.uniforms@, "model_view_projection"@);
            assert(final(ctx).log@ =~= old(ctx).log@ + seq![
                Command::UseProgram { program: self.program.id },
                Command::UniformMat3 {
                    location: found.unwrap().location,
                    value: state.transform,
                },
                Command::BindVertexArray { array: self.vao.id },
                Command::DrawElements { count: self.num_elements },
                Command::BindVertexArray { array: 0 },
                Command::UseProgram { program: 0 },
            ]);
        }
        Ok(())
    }
}

} // verus!
