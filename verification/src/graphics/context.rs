//! The backend model: typed driver errors, resource handles, uniform
//! reflection, and the per-context draw state.
//!
//! Each resource struct owns the identifier of one driver object; the
//! identifiers themselves are allocated by the driver, so the executor
//! creates them and hands them in. Every operation that would call the
//! driver appends a [`Command`] to the context's log instead.

use vstd::prelude::*;

use crate::commands::{BufferTarget, BufferUsage, Command};
use crate::fixed::{fx_div, fx_div_int, lemma_fx_div_bound, lemma_fx_mul_bound, FX_ONE};
use crate::graphics::blend::{opt_blend_eq, BlendMode};
use crate::graphics::primitives::BasicVertex2D;
use crate::graphics::transform::{
    mat3_bounded, mat_mul_spec, scale, scale_spec, translate, translate_spec, Mat3, Mat3Spec,
    Vec2, Vec2Spec,
};

verus! {

/// Largest buffer payload in bytes that the driver's signed size
/// parameter can represent.
pub const MAX_BUFFER_BYTES: u64 = 0x7FFF_FFFF_FFFF_FFFF;

/// Driver-side byte size of one packed [`BasicVertex2D`].
pub const VERTEX_BYTES: usize = 32;

/// Driver-side byte size of one packed position.
pub const POSITION_BYTES: usize = 8;

/// Driver-side byte size of one 32-bit index.
pub const INDEX_BYTES: usize = 4;

/// A typed error from the backend layer.
#[derive(Debug, Clone, PartialEq, Eq)]
pub enum BackendError {
    /// A driver error occurred, with debug information: the expression
    /// issued, its call site, and the driver's symbolic error code.
    Gl { expression: String, file: String, line: u32, column: u32, error: u32 },
    /// Failed to compile a shader; carries the driver's diagnostic log.
    CompileShader { log: String },
    /// Failed to link a shader program; carries the driver's diagnostic log.
    LinkProgram { log: String },
    /// Requested a uniform value that doesn't exist.
    NoSuchUniform { uniform: String },
    /// Tried to access a uniform value of the wrong type.
    UniformType { uniform: String, uniform_type: UniformKind },
    /// A buffer, texture, etc. grew too big.
    TooLarge,
    /// Attempt to write to a buffer, texture, etc. from a client buffer
    /// that had the wrong size.
    InvalidSize,
}

/// The reflected type of a shader uniform.
#[derive(Debug, Clone, Copy, PartialEq, Eq, Structural)]
pub enum UniformKind {
    FloatMat3,
    FloatVec4,
    Int,
    Sampler2D,
    Bool,
    /// Any uniform type this library does not assign values to.
    Other,
}

/// What reflection reported about one uniform: its type, array size and
/// binding location.
#[derive(Debug, Clone, Copy, PartialEq, Eq, Structural)]
pub struct UniformInfo {
    pub kind: UniformKind,
    pub size: i32,
    pub location: i32,
}

/// The supported kinds of shaders.
#[derive(Debug, Copy, Clone, PartialEq, Eq, Hash, Structural)]
pub enum ShaderType {
    /// A vertex shader, for processing the vertices of a mesh.
    Vertex,
    /// A fragment shader, for processing the rasterized pixels of a mesh.
    Fragment,
}

/// Looks up `name` among `entries`, later entries taking precedence,
/// as repeated insertion into a name-keyed table would leave it.
pub open spec fn lookup_spec(entries: Seq<(Seq<char>, UniformInfo)>, name: Seq<char>) -> Option<
    UniformInfo,
>
    decreases entries.len(),
{
    if entries.len() == 0 {
        Option::None
    } else if entries.last().0 == name {
        Option::Some(entries.last().1)
    } else {
        lookup_spec(entries.drop_last(), name)
    }
}

/// The table entries that uniform reflection keeps: each reported
/// uniform whose name was readable, in order.
pub open spec fn reflected_entries(reflection: Seq<(Option<String>, UniformInfo)>) -> Seq<
    (Seq<char>, UniformInfo),
>
    decreases reflection.len(),
{
    if reflection.len() == 0 {
        Seq::empty()
    } else {
        reflected_entries(reflection.drop_last()) + (match reflection.last().0 {
            Option::Some(name) => seq![(name@, reflection.last().1)],
            Option::None => Seq::empty(),
        })
    }
}

/// The uniform table of a linked program: each active uniform's name
/// mapped to its reflected type and location. Immutable after
/// construction.
#[derive(Debug)]
pub struct UniformTable {
    entries: Vec<(String, UniformInfo)>,
}

impl View for UniformTable {
    type V = Seq<(Seq<char>, UniformInfo)>;

    closed spec fn view(&self) -> Seq<(Seq<char>, UniformInfo)> {
        self.entries@.map_values(|p: (String, UniformInfo)| (p.0@, p.1))
    }
}

impl UniformTable {
    /// Builds the table from reflection results, skipping uniforms whose
    /// names were unreadable rather than failing the whole link.
    pub fn from_reflection(reflection: &Vec<(Option<String>, UniformInfo)>) -> (table: UniformTable)
        ensures
            table@ == reflected_entries(reflection@),
    {
        let mut entries: Vec<(String, UniformInfo)> = Vec::new();
        let n = reflection.len();
        let mut i: usize = 0;
        while i < n
            invariant
                i <= n,
                n == reflection@.len(),
                entries@.map_values(|p: (String, UniformInfo)| (p.0@, p.1)) == reflected_entries(
                    reflection@.take(i as int),
                ),
            decreases n - i,
        {
            match &reflection[i].0 {
                Option::Some(name) => {
                    entries.push((name.clone(), reflection[i].1));
                },
                Option::None => {},
            }
            proof {
                assert(reflection@.take(i + 1 as int).drop_last() =~= reflection@.take(i as int));
                assert(reflection@.take(i + 1 as int).last() == reflection@[i as int]);
                assert(entries@.map_values(|p: (String, UniformInfo)| (p.0@, p.1))
                    =~= reflected_entries(reflection@.take(i + 1 as int)));
            }
            i = i + 1;
        }
        proof {
            assert(reflection@.take(n as int) =~= reflection@);
        }
        UniformTable { entries }
    }

    /// The number of uniforms in the table.
    pub fn len(&self) -> (n: usize)
        ensures
            n == self@.len(),
    {
        self.entries.len()
    }

    /// Looks up one uniform by name.
    pub fn get(&self, name: &String) -> (r: Option<UniformInfo>)
        ensures
            r == lookup_spec(self@, name@),
    {
        let mut i = self.entries.len();
        proof {
            assert(self@.take(i as int) =~= self@);
        }
        while i > 0
            invariant
                i <= self.entries@.len(),
                self@.len() == self.entries@.len(),
                lookup_spec(self@.take(i as int), name@) == lookup_spec(self@, name@),
            decreases i,
        {
            i = i - 1;
            proof {
                assert(self@.take(i + 1 as int).last() == self@[i as int]);
                assert(self@.take(i + 1 as int).drop_last() =~= self@.take(i as int));
            }
            if self.entries[i].0 == *name {
                return Option::Some(self.entries[i].1);
            }
        }
        proof {
            assert(self@.take(0) =~= Seq::<(Seq<char>, UniformInfo)>::empty());
        }
        Option::None
    }
}

/// A value assignable to a shader uniform.
pub trait UniformValue: Sized {
    /// The reflected uniform types this value may be assigned to.
    spec fn allowed_kind(kind: UniformKind) -> bool;

    /// The driver command assigning this value to `location`.
    spec fn command_of(&self, location: i32) -> Command;

    /// Return whether this value can be assigned to a uniform of the given type.
    fn is_allowed_type(&self, kind: UniformKind) -> (r: bool)
        ensures
            r == Self::allowed_kind(kind),
    ;

    /// Build the command assigning this value to the uniform at `location`.
    fn uniform_command(&self, location: i32) -> (c: Command)
        ensures
            c == self.command_of(location),
    ;
}

impl UniformValue for Mat3 {
    open spec fn allowed_kind(kind: UniformKind) -> bool {
        kind == UniformKind::FloatMat3
    }

    open spec fn command_of(&self, location: i32) -> Command {
        Command::UniformMat3 { location, value: *self }
    }

    fn is_allowed_type(&self, kind: UniformKind) -> bool {
        match kind {
            UniformKind::FloatMat3 => true,
            _ => false,
        }
    }

    fn uniform_command(&self, location: i32) -> Command {
        Command::UniformMat3 { location, value: *self }
    }
}

impl UniformValue for i32 {
    open spec fn allowed_kind(kind: UniformKind) -> bool {
        kind == UniformKind::Int || kind == UniformKind::Sampler2D
    }

    open spec fn command_of(&self, location: i32) -> Command {
        Command::UniformInt { location, value: *self }
    }

    fn is_allowed_type(&self, kind: UniformKind) -> bool {
        match kind {
            UniformKind::Int => true,
            UniformKind::Sampler2D => true,
            _ => false,
        }
    }

    fn uniform_command(&self, location: i32) -> Command {
        Command::UniformInt { location, value: *self }
    }
}

impl UniformValue for bool {
    open spec fn allowed_kind(kind: UniformKind) -> bool {
        kind == UniformKind::Bool
    }

    open spec fn command_of(&self, location: i32) -> Command {
        Command::UniformBool { location, value: *self }
    }

    fn is_allowed_type(&self, kind: UniformKind) -> bool {
        match kind {
            UniformKind::Bool => true,
            _ => false,
        }
    }

    fn uniform_command(&self, location: i32) -> Command {
        Command::UniformBool { location, value: *self }
    }
}

impl UniformValue for crate::graphics::color::Color {
    open spec fn allowed_kind(kind: UniformKind) -> bool {
        kind == UniformKind::FloatVec4
    }

    open spec fn command_of(&self, location: i32) -> Command {
        Command::UniformVec4 { location, value: *self }
    }

    fn is_allowed_type(&self, kind: UniformKind) -> bool {
        match kind {
            UniformKind::FloatVec4 => true,
            _ => false,
        }
    }

    fn uniform_command(&self, location: i32) -> Command {
        Command::UniformVec4 { location, value: *self }
    }
}

/// A compiled shader stage: owns one driver shader object. Compilation
/// itself happens in the executor; on success it wraps the resulting
/// identifier here.
#[derive(Debug)]
pub struct Shader {
    pub id: u32,
}

impl Shader {
    /// Wraps a driver shader identifier.
    pub fn from_raw(id: u32) -> (s: Shader)
        ensures
            s.id == id,
    {
        Shader { id }
    }
}

impl Shader {
    /// Decides the outcome of a driver shader compilation: a reported
    /// success wraps the identifier, a failure carries the driver's
    /// diagnostic log verbatim in the typed error.
    pub fn compile_outcome(id: u32, status_ok: bool, log: String) -> (r: Result<
        Shader,
        BackendError,
    >)
        ensures
            status_ok ==> (r matches Ok(s) && s.id == id),
            !status_ok ==> r == Err::<Shader, BackendError>(BackendError::CompileShader { log }),
    {
        if status_ok {
            Ok(Shader::from_raw(id))
        } else {
            Err(BackendError::CompileShader { log })
        }
    }

    /// Releases the driver shader. Deletion consumes the handle, so each
    /// shader is released exactly once; a handle that is merely dropped
    /// leaks instead of double-freeing.
    pub fn delete(self, ctx: &mut GraphicsContext)
        ensures
            ctx_logged(*old(ctx), *final(ctx), seq![Command::DeleteShader { shader: self.id }]),
    {
        ctx.emit(Command::DeleteShader { shader: self.id });
    }
}

/// A linked program: owns one driver program object together with its
/// reflected uniform table.
#[derive(Debug)]
pub struct Program {
    pub id: u32,
    pub uniforms: UniformTable,
}

impl Program {
    /// Wraps a linked driver program and the uniforms its reflection
    /// reported; unreadable names are skipped.
    pub fn from_reflection(id: u32, reflection: &Vec<(Option<String>, UniformInfo)>) -> (p:
        Program)
        ensures
            p.id == id,
            p.uniforms@ == reflected_entries(reflection@),
    {
        Program { id, uniforms: UniformTable::from_reflection(reflection) }
    }

    /// Makes this program current.
    pub fn bind(&self, ctx: &mut GraphicsContext)
        ensures
            ctx_logged(*old(ctx), *final(ctx), seq![Command::UseProgram { program: self.id }]),
    {
        ctx.emit(Command::UseProgram { program: self.id });
    }

    /// Deselects any current program.
    pub fn unbind(ctx: &mut GraphicsContext)
        ensures
            ctx_logged(*old(ctx), *final(ctx), seq![Command::UseProgram { program: 0 }]),
    {
        ctx.emit(Command::UseProgram { program: 0 });
    }

    /// Assigns `value` to the named uniform. Fails with `NoSuchUniform`
    /// when the program has no uniform of that name and with
    /// `UniformType` when the reflected type does not accept the value;
    /// exactly otherwise it emits the one assignment command.
    pub fn set_uniform<T: UniformValue>(
        &self,
        ctx: &mut GraphicsContext,
        uniform: &String,
        value: &T,
    ) -> (r: Result<(), BackendError>)
        ensures
            ({
                let found = lookup_spec(self.uniforms@, uniform@);
                match found {
                    Option::None => r == Err::<(), BackendError>(
                        BackendError::NoSuchUniform { uniform: *uniform },
                    ) && *final(ctx) == *old(ctx),
                    Option::Some(info) => if T::allowed_kind(info.kind) {
                        r == Ok::<(), BackendError>(()) && ctx_logged(
                            *old(ctx),
                            *final(ctx),
                            seq![value.command_of(info.location)],
                        )
                    } else {
                        r == Err::<(), BackendError>(
                            BackendError::UniformType {
                                uniform: *uniform,
                                uniform_type: info.kind,
                            },
                        ) && *final(ctx) == *old(ctx)
                    },
                }
            }),
    {
        match self.uniforms.get(uniform) {
            Option::None => Err(BackendError::NoSuchUniform { uniform: uniform.clone() }),
            Option::Some(info) => {
                if value.is_allowed_type(info.kind) {
                    ctx.emit(value.uniform_command(info.location));
                    Ok(())
                } else {
                    Err(
                        BackendError::UniformType {
                            uniform: uniform.clone(),
                            uniform_type: info.kind,
                        },
                    )
                }
            },
        }
    }
}

impl Program {
    /// Decides the outcome of a driver program link: a reported success
    /// wraps the identifier with its reflected uniforms, a failure
    /// carries the driver's diagnostic log verbatim in the typed error.
    pub fn link_outcome(
        id: u32,
        status_ok: bool,
        log: String,
        reflection: &Vec<(Option<String>, UniformInfo)>,
    ) -> (r: Result<Program, BackendError>)
        ensures
            status_ok ==> (r matches Ok(p) && p.id == id && p.uniforms@ == reflected_entries(
                reflection@,
            )),
            !status_ok ==> r == Err::<Program, BackendError>(BackendError::LinkProgram { log }),
    {
        if status_ok {
            Ok(Program::from_reflection(id, reflection))
        } else {
            Err(BackendError::LinkProgram { log })
        }
    }

    /// Releases the driver program. Deletion consumes the handle, so
    /// each program is released exactly once.
    pub fn delete(self, ctx: &mut GraphicsContext)
        ensures
            ctx_logged(*old(ctx), *final(ctx), seq![Command::DeleteProgram { program: self.id }]),
    {
        ctx.emit(Command::DeleteProgram { program: self.id });
    }
}

/// A driver buffer object.
#[derive(Debug)]
pub struct Buffer {
    pub id: u32,
}

impl Buffer {
    /// Wraps a driver buffer identifier.
    pub fn from_raw(id: u32) -> (b: Buffer)
        ensures
            b.id == id,
    {
        Buffer { id }
    }

    /// Binds `buffer` to `target`.
    pub fn bind(ctx: &mut GraphicsContext, target: BufferTarget, buffer: &Buffer)
        ensures
            ctx_logged(
                *old(ctx),
                *final(ctx),
                seq![Command::BindBuffer { target, buffer: buffer.id }],
            ),
    {
        ctx.emit(Command::BindBuffer { target, buffer: buffer.id });
    }

    /// Unbinds whatever buffer is bound to `target`.
    pub fn unbind(ctx: &mut GraphicsContext, target: BufferTarget)
        ensures
            ctx_logged(*old(ctx), *final(ctx), seq![Command::BindBuffer { target, buffer: 0 }]),
    {
        ctx.emit(Command::BindBuffer { target, buffer: 0 });
    }

    /// Creates the bound buffer's data store from packed vertices.
    /// Rejects payloads whose byte size the driver's signed size
    /// parameter cannot represent.
    pub fn data_vertices(
        ctx: &mut GraphicsContext,
        target: BufferTarget,
        data: &Vec<BasicVertex2D>,
        usage: BufferUsage,
    ) -> (r: Result<(), BackendError>)
        ensures
            data@.len() * VERTEX_BYTES > MAX_BUFFER_BYTES ==> r == Err::<(), BackendError>(
                BackendError::TooLarge,
            ) && *final(ctx) == *old(ctx),
            data@.len() * VERTEX_BYTES <= MAX_BUFFER_BYTES ==> r == Ok::<(), BackendError>(())
                && final(ctx).log@.len() == old(ctx).log@.len() + 1 && final(ctx).log@.drop_last()
                == old(ctx).log@ && (final(ctx).log@.last() matches Command::UploadVertices {
                target: t,
                vertices,
                usage: u,
            } && t == target && vertices@ == data@ && u == usage) && ctx_same_state(
                *old(ctx),
                *final(ctx),
            ),
    {
        match buffer_byte_size(data.len(), VERTEX_BYTES) {
            Err(e) => Err(e),
            Ok(_) => {
                let vertices = clone_copy_vec(data);
                ctx.emit(Command::UploadVertices { target, vertices, usage });
                Ok(())
            },
        }
    }

    /// Creates the bound buffer's data store from packed positions,
    /// with the same size check as [`Buffer::data_vertices`].
    pub fn data_positions(
        ctx: &mut GraphicsContext,
        target: BufferTarget,
        data: &Vec<Vec2>,
        usage: BufferUsage,
    ) -> (r: Result<(), BackendError>)
        ensures
            data@.len() * POSITION_BYTES > MAX_BUFFER_BYTES ==> r == Err::<(), BackendError>(
                BackendError::TooLarge,
            ) && *final(ctx) == *old(ctx),
            data@.len() * POSITION_BYTES <= MAX_BUFFER_BYTES ==> r == Ok::<(), BackendError>(())
                && final(ctx).log@.len() == old(ctx).log@.len() + 1 && final(ctx).log@.drop_last()
                == old(ctx).log@ && (final(ctx).log@.last() matches Command::UploadPositions {
                target: t,
                positions,
                usage: u,
            } && t == target && positions@ == data@ && u == usage) && ctx_same_state(
                *old(ctx),
                *final(ctx),
            ),
    {
        match buffer_byte_size(data.len(), POSITION_BYTES) {
            Err(e) => Err(e),
            Ok(_) => {
                let positions = clone_copy_vec(data);
                ctx.emit(Command::UploadPositions { target, positions, usage });
                Ok(())
            },
        }
    }

    /// Creates the bound buffer's data store from 32-bit indices,
    /// with the same size check as [`Buffer::data_vertices`].
    pub fn data_indices(
        ctx: &mut GraphicsContext,
        target: BufferTarget,
        data: &Vec<u32>,
        usage: BufferUsage,
    ) -> (r: Result<(), BackendError>)
        ensures
            data@.len() * INDEX_BYTES > MAX_BUFFER_BYTES ==> r == Err::<(), BackendError>(
                BackendError::TooLarge,
            ) && *final(ctx) == *old(ctx),
            data@.len() * INDEX_BYTES <= MAX_BUFFER_BYTES ==> r == Ok::<(), BackendError>(())
                && final(ctx).log@.len() == old(ctx).log@.len() + 1 && final(ctx).log@.drop_last()
                == old(ctx).log@ && (final(ctx).log@.last() matches Command::UploadIndices {
                target: t,
                indices,
                usage: u,
            } && t == target && indices@ == data@ && u == usage) && ctx_same_state(
                *old(ctx),
                *final(ctx),
            ),
    {
        match buffer_byte_size(data.len(), INDEX_BYTES) {
            Err(e) => Err(e),
            Ok(_) => {
                let indices = clone_copy_vec(data);
                ctx.emit(Command::UploadIndices { target, indices, usage });
                Ok(())
            },
        }
    }
}

impl Buffer {
    /// Releases the driver buffer. Deletion consumes the handle, so each
    /// buffer is released exactly once.
    pub fn delete(self, ctx: &mut GraphicsContext)
        ensures
            ctx_logged(*old(ctx), *final(ctx), seq![Command::DeleteBuffer { buffer: self.id }]),
    {
        ctx.emit(Command::DeleteBuffer { buffer: self.id });
    }
}

/// A driver vertex-array object: a descriptor binding buffer byte layout
/// to shader input locations.
#[derive(Debug)]
pub struct VertexArray {
    pub id: u32,
}

impl VertexArray {
    /// Wraps a driver vertex-array identifier.
    pub fn from_raw(id: u32) -> (v: VertexArray)
        ensures
            v.id == id,
    {
        VertexArray { id }
    }

    /// Binds this vertex array.
    pub fn bind(&self, ctx: &mut GraphicsContext)
        ensures
            ctx_logged(*old(ctx), *final(ctx), seq![Command::BindVertexArray { array: self.id }]),
    {
        ctx.emit(Command::BindVertexArray { array: self.id });
    }

    /// Unbinds any bound vertex array.
    pub fn unbind(ctx: &mut GraphicsContext)
        ensures
            ctx_logged(*old(ctx), *final(ctx), seq![Command::BindVertexArray { array: 0 }]),
    {
        ctx.emit(Command::BindVertexArray { array: 0 });
    }
}

impl VertexArray {
    /// Releases the driver vertex array. Deletion consumes the handle,
    /// so each layout object is released exactly once.
    pub fn delete(self, ctx: &mut GraphicsContext)
        ensures
            ctx_logged(*old(ctx), *final(ctx), seq![Command::DeleteVertexArray { array: self.id }]),
    {
        ctx.emit(Command::DeleteVertexArray { array: self.id });
    }
}

/// A driver texture object.
#[derive(Debug)]
pub struct Texture {
    id: u32,
}

impl Texture {
    /// Wraps a driver texture identifier.
    pub fn from_raw(id: u32) -> (t: Texture)
        ensures
            t.spec_id() == id,
    {
        Texture { id }
    }

    /// The driver identifier of this texture.
    pub fn id(&self) -> (id: u32)
        ensures
            id == self.spec_id(),
    {
        self.id
    }

    /// The driver identifier, for use in contracts.
    pub closed spec fn spec_id(&self) -> u32 {
        self.id
    }

    /// Binds `texture` to the 2D target.
    pub fn bind(ctx: &mut GraphicsContext, texture: &Texture)
        ensures
            ctx_logged(
                *old(ctx),
                *final(ctx),
                seq![Command::BindTexture { texture: texture.spec_id() }],
            ),
    {
        ctx.emit(Command::BindTexture { texture: texture.id });
    }

    /// Unbinds any texture from the 2D target.
    pub fn unbind(ctx: &mut GraphicsContext)
        ensures
            ctx_logged(*old(ctx), *final(ctx), seq![Command::BindTexture { texture: 0 }]),
    {
        ctx.emit(Command::BindTexture { texture: 0 });
    }

    /// Uploads RGBA pixels to the bound 2D texture. Fails with
    /// `TooLarge` when the sample count overflows the driver's signed
    /// 32-bit parameter, and with `InvalidSize` when the client buffer
    /// does not hold exactly `width * height` RGBA pixels.
    pub fn image2d_rgba(
        ctx: &mut GraphicsContext,
        width: i32,
        height: i32,
        data: &Vec<u8>,
    ) -> (r: Result<(), BackendError>)
        ensures
            tex_image_outcome(
                *old(ctx),
                *final(ctx),
                r,
                width as int,
                height as int,
                data@,
                false,
                0,
                0,
            ),
    {
        let num_samples = match checked_mul_i32(width, height) {
            Option::Some(pixels) => match checked_mul_i32(pixels, 4) {
                Option::Some(samples) => samples,
                Option::None => {
                    return Err(BackendError::TooLarge);
                },
            },
            Option::None => {
                return Err(BackendError::TooLarge);
            },
        };
        if num_samples < 0 || data.len() > i32::MAX as usize || num_samples != data.len() as i32 {
            return Err(BackendError::InvalidSize);
        }
        ctx.emit(Command::TexImage2D { width, height, data: clone_copy_vec(data) });
        proof {
            assert(final(ctx).log@.drop_last() =~= old(ctx).log@);
        }
        Ok(())
    }

    /// Uploads RGBA pixels to a region of the bound 2D texture, with the
    /// same size checks as [`Texture::image2d_rgba`].
    pub fn subimage2d_rgba(
        ctx: &mut GraphicsContext,
        x: i32,
        y: i32,
        width: i32,
        height: i32,
        data: &Vec<u8>,
    ) -> (r: Result<(), BackendError>)
        ensures
            tex_image_outcome(
                *old(ctx),
                *final(ctx),
                r,
                width as int,
                height as int,
                data@,
                true,
                x as int,
                y as int,
            ),
    {
        let num_samples = match checked_mul_i32(width, height) {
            Option::Some(pixels) => match checked_mul_i32(pixels, 4) {
                Option::Some(samples) => samples,
                Option::None => {
                    return Err(BackendError::TooLarge);
                },
            },
            Option::None => {
                return Err(BackendError::TooLarge);
            },
        };
        if num_samples < 0 || data.len() > i32::MAX as usize || num_samples != data.len() as i32 {
            return Err(BackendError::InvalidSize);
        }
        ctx.emit(Command::TexSubImage2D { x, y, width, height, data: clone_copy_vec(data) });
        proof {
            assert(final(ctx).log@.drop_last() =~= old(ctx).log@);
        }
        Ok(())
    }

    /// Generates mipmaps for the bound 2D texture.
    pub fn generate_mipmap(ctx: &mut GraphicsContext)
        ensures
            ctx_logged(*old(ctx), *final(ctx), seq![Command::GenerateMipmap]),
    {
        ctx.emit(Command::GenerateMipmap);
    }
}

impl Texture {
    /// Releases the driver texture. Deletion consumes the handle, so
    /// each texture is released exactly once.
    pub fn delete(self, ctx: &mut GraphicsContext)
        ensures
            ctx_logged(
                *old(ctx),
                *final(ctx),
                seq![Command::DeleteTexture { texture: self.spec_id() }],
            ),
    {
        ctx.emit(Command::DeleteTexture { texture: self.id });
    }
}

/// The outcome contract shared by the two texture upload operations:
/// `TooLarge` exactly when `width * height * 4` leaves the 32-bit range,
/// otherwise `InvalidSize` exactly when it is negative or differs from
/// the buffer length, otherwise one upload command.
pub open spec fn tex_image_outcome(
    pre: GraphicsContext,
    post: GraphicsContext,
    r: Result<(), BackendError>,
    width: int,
    height: int,
    data: Seq<u8>,
    sub: bool,
    x: int,
    y: int,
) -> bool {
    let samples = width * height * 4;
    if !(-0x8000_0000 <= width * height <= 0x7FFF_FFFF) || !(-0x8000_0000 <= samples
        <= 0x7FFF_FFFF) {
        r == Err::<(), BackendError>(BackendError::TooLarge) && post == pre
    } else if samples < 0 || samples != data.len() {
        r == Err::<(), BackendError>(BackendError::InvalidSize) && post == pre
    } else {
        r == Ok::<(), BackendError>(()) && post.log.len() == pre.log.len() + 1
            && post.log@.drop_last() == pre.log@ && ctx_same_state(pre, post) && (if sub {
            post.log@.last() matches Command::TexSubImage2D {
                x: cx,
                y: cy,
                width: w,
                height: h,
                data: d,
            } && cx == x && cy == y && w == width && h == height && d@ == data
        } else {
            post.log@.last() matches Command::TexImage2D { width: w, height: h, data: d } && w
                == width && h == height && d@ == data
        })
    }
}

/// Per-context draw state: the screen dimensions, the pixel projection
/// derived from them, the remembered blend mode, and the command log.
///
/// The blend-mode cache is the single point of truth for blend state:
/// every blend change goes through [`GraphicsContext::set_blend_mode`],
/// which skips driver calls when the requested mode is already current.
#[derive(Debug)]
pub struct GraphicsContext {
    pub screen_width: u32,
    pub screen_height: u32,
    /// Converts pixel coordinates to normalized device coordinates.
    pub pixel_projection: Mat3,
    /// The blend mode most recently applied to the driver.
    pub blend_mode: Option<BlendMode>,
    /// The driver calls issued so far, in order.
    pub log: Vec<Command>,
}

/// `post` is `pre` with `cmds` appended to the log and everything else
/// unchanged.
pub open spec fn ctx_logged(pre: GraphicsContext, post: GraphicsContext, cmds: Seq<Command>) -> bool {
    post.log@ == pre.log@ + cmds && ctx_same_state(pre, post)
}

/// The two contexts agree on everything but the log.
pub open spec fn ctx_same_state(pre: GraphicsContext, post: GraphicsContext) -> bool {
    &&& post.screen_width == pre.screen_width
    &&& post.screen_height == pre.screen_height
    &&& post.pixel_projection == pre.pixel_projection
    &&& post.blend_mode == pre.blend_mode
}

/// The pixel projection for a screen of the given size: scale pixel
/// units onto a two-unit span with Y flipped, then move the origin to
/// the top-left corner.
pub open spec fn pixel_projection_spec(width: int, height: int) -> Mat3Spec {
    mat_mul_spec(
        translate_spec(Vec2Spec { x: -65536, y: 65536 }),
        scale_spec(
            Vec2Spec {
                x: fx_div_int(131072, width * 65536),
                y: fx_div_int(-131072, height * 65536),
            },
        ),
    )
}

/// The driver commands that switching the blend mode from `prev` to
/// `next` issues: none when they are equal, an optional enable plus the
/// equation and factor selections when enabling or changing, one disable
/// when turning blending off.
pub open spec fn blend_cmds(prev: Option<BlendMode>, next: Option<BlendMode>) -> Seq<Command> {
    if next == prev {
        Seq::empty()
    } else {
        match next {
            Option::Some(b) => (if prev is None {
                seq![Command::EnableBlend]
            } else {
                Seq::empty()
            }) + seq![
                Command::BlendEquationSeparate { func_rgb: b.func_rgb, func_alpha: b.func_alpha },
                Command::BlendFuncSeparate {
                    src_rgb: b.src_rgb,
                    dst_rgb: b.dst_rgb,
                    src_alpha: b.src_alpha,
                    dst_alpha: b.dst_alpha,
                },
            ],
            Option::None => seq![Command::DisableBlend],
        }
    }
}

impl GraphicsContext {
    /// A fresh context for a screen of the given pixel size, with
    /// blending off and an empty log.
    pub fn new(screen_width: u32, screen_height: u32) -> (ctx: GraphicsContext)
        requires
            1 <= screen_width,
            1 <= screen_height,
        ensures
            ctx.screen_width == screen_width,
            ctx.screen_height == screen_height,
            ctx.pixel_projection@ == pixel_projection_spec(screen_width as int, screen_height as int),
            mat3_bounded(ctx.pixel_projection@, 0x4_0000),
            ctx.blend_mode is None,
            ctx.log@ == Seq::<Command>::empty(),
    {
        GraphicsContext {
            screen_width,
            screen_height,
            pixel_projection: compute_pixel_projection(screen_width, screen_height),
            blend_mode: Option::None,
            log: Vec::new(),
        }
    }

    /// Appends one command to the log.
    pub(crate) fn emit(&mut self, c: Command)
        ensures
            ctx_logged(*old(self), *final(self), seq![c]),
    {
        self.log.push(c);
        proof {
            assert(final(self).log@ =~= old(self).log@ + seq![c]);
        }
    }

    /// Records the new screen size, recomputes the pixel projection and
    /// resizes the driver viewport.
    pub fn resize(&mut self, new_width: u32, new_height: u32)
        requires
            1 <= new_width,
            1 <= new_height,
        ensures
            final(self).screen_width == new_width,
            final(self).screen_height == new_height,
            final(self).pixel_projection@ == pixel_projection_spec(
                new_width as int,
                new_height as int,
            ),
            mat3_bounded(final(self).pixel_projection@, 0x4_0000),
            final(self).blend_mode == old(self).blend_mode,
            final(self).log@ == old(self).log@ + seq![
                Command::Viewport { width: new_width, height: new_height },
            ],
    {
        self.emit(Command::Viewport { width: new_width, height: new_height });
        self.screen_width = new_width;
        self.screen_height = new_height;
        self.pixel_projection = compute_pixel_projection(new_width, new_height);
    }

    /// Applies a blend mode through the cache: a no-op when `blend_mode`
    /// is already current, otherwise it issues exactly the driver calls
    /// the change needs and remembers the new mode.
    pub fn set_blend_mode(&mut self, blend_mode: Option<BlendMode>)
        ensures
            final(self).blend_mode == blend_mode,
            final(self).log@ == old(self).log@ + blend_cmds(old(self).blend_mode, blend_mode),
            final(self).screen_width == old(self).screen_width,
            final(self).screen_height == old(self).screen_height,
            final(self).pixel_projection == old(self).pixel_projection,
    {
        let changed = !opt_blend_eq(&self.blend_mode, &blend_mode);
        if changed {
            match blend_mode {
                Option::Some(b) => {
                    if self.blend_mode.is_none() {
                        self.emit(Command::EnableBlend);
                    }
                    self.emit(
                        Command::BlendEquationSeparate {
                            func_rgb: b.func_rgb,
                            func_alpha: b.func_alpha,
                        },
                    );
                    self.emit(
                        Command::BlendFuncSeparate {
                            src_rgb: b.src_rgb,
                            dst_rgb: b.dst_rgb,
                            src_alpha: b.src_alpha,
                            dst_alpha: b.dst_alpha,
                        },
                    );
                },
                Option::None => {
                    self.emit(Command::DisableBlend);
                },
            }
            self.blend_mode = blend_mode;
        }
        proof {
            assert(final(self).log@ =~= old(self).log@ + blend_cmds(
                old(self).blend_mode,
                blend_mode,
            ));
        }
    }

    /// Hands the accumulated commands to the executor, leaving the log
    /// empty.
    pub fn take_commands(&mut self) -> (cmds: Vec<Command>)
        ensures
            cmds@ == old(self).log@,
            final(self).log@ == Seq::<Command>::empty(),
            ctx_same_state(*old(self), *final(self)),
    {
        let mut taken: Vec<Command> = Vec::new();
        core::mem::swap(&mut taken, &mut self.log);
        taken
    }
}

/// Computes the pixel projection for the given screen size.
pub fn compute_pixel_projection(screen_width: u32, screen_height: u32) -> (m: Mat3)
    requires
        1 <= screen_width,
        1 <= screen_height,
    ensures
        m@ == pixel_projection_spec(screen_width as int, screen_height as int),
        mat3_bounded(m@, 0x4_0000),
{
    let sx = fx_div(131072, (screen_width as i64) * 65536);
    let sy = fx_div(-131072, (screen_height as i64) * 65536);
    proof {
        lemma_fx_div_bound(131072, screen_width as int * 65536, 131072);
        lemma_fx_div_bound(-131072, screen_height as int * 65536, 131072);
    }
    let scale_m = scale(Vec2 { x: sx, y: sy });
    let translate_m = translate(Vec2 { x: -FX_ONE, y: FX_ONE });
    let m = translate_m.compose(&scale_m);
    proof {
        lemma_fx_mul_bound(65536, sx as int, 65536, 131072);
        lemma_fx_mul_bound(65536, sy as int, 65536, 131072);
        lemma_fx_mul_bound(0, sx as int, 0, 131072);
        lemma_fx_mul_bound(0, sy as int, 0, 131072);
        lemma_fx_mul_bound(65536, 0, 65536, 0);
        lemma_fx_mul_bound(0, 0, 0, 0);
    }
    m
}

/// The byte size of `count` elements of `element_bytes` each, or
/// `TooLarge` exactly when it exceeds the driver's signed size range.
pub fn buffer_byte_size(count: usize, element_bytes: usize) -> (r: Result<u64, BackendError>)
    requires
        1 <= element_bytes <= 64,
    ensures
        match r {
            Ok(n) => n == count * element_bytes && count * element_bytes <= MAX_BUFFER_BYTES,
            Err(e) => e == BackendError::TooLarge && count * element_bytes > MAX_BUFFER_BYTES,
        },
{
    proof {
        assert((count as u128) * (element_bytes as u128) <= 0xFFFF_FFFF_FFFF_FFFFu128 * 64u128)
            by (nonlinear_arith)
            requires
                count as u128 <= 0xFFFF_FFFF_FFFF_FFFFu128,
                element_bytes as u128 <= 64u128,
        ;
    }
    let total = (count as u128) * (element_bytes as u128);
    if total > 0x7FFF_FFFF_FFFF_FFFFu128 {
        Err(BackendError::TooLarge)
    } else {
        Ok(total as u64)
    }
}

/// `a * b` when it fits in `i32`, as the driver's size arithmetic does it.
fn checked_mul_i32(a: i32, b: i32) -> (r: Option<i32>)
    ensures
        match r {
            Option::Some(p) => p == a as int * b as int && -0x8000_0000 <= a as int * b as int
                <= 0x7FFF_FFFF,
            Option::None => !(-0x8000_0000 <= a as int * b as int <= 0x7FFF_FFFF),
        },
{
    proof {
        assert(-0x4000_0000_0000_0000 <= a as int * b as int <= 0x4000_0000_0000_0000)
            by (nonlinear_arith)
            requires
                -0x8000_0000 <= a as int <= 0x7FFF_FFFF,
                -0x8000_0000 <= b as int <= 0x7FFF_FFFF,
        ;
    }
    let wide: i64 = (a as i64) * (b as i64);
    if -0x8000_0000i64 <= wide && wide <= 0x7FFF_FFFFi64 {
        Option::Some(wide as i32)
    } else {
        Option::None
    }
}

/// Copies a vector of plain values.
pub(crate) fn clone_copy_vec<T: Copy>(v: &Vec<T>) -> (r: Vec<T>)
    ensures
        r@ == v@,
{
    let mut out: Vec<T> = Vec::new();
    let n = v.len();
    let mut i: usize = 0;
    while i < n
        invariant
            i <= n,
            n == v@.len(),
            out@ == v@.take(i as int),
        decreases n - i,
    {
        out.push(v[i]);
        proof {
            assert(out@ =~= v@.take(i + 1 as int));
        }
        i = i + 1;
    }
    proof {
        assert(v@.take(n as int) =~= v@);
    }
    out
}

} // verus!
