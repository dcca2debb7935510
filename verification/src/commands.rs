//! The driver command log.
//!
//! Every driver interaction of the library is recorded as a [`Command`]
//! in the context's log instead of being issued directly. An unverified
//! executor replays the log against the actual graphics driver; the
//! contracts of this crate state exactly which commands each operation
//! appends.

use vstd::prelude::*;

use crate::graphics::blend::{BlendFunc, BlendParam};
use crate::graphics::color::Color;
use crate::graphics::primitives::{BasicVertex2D, VertexAttrib};
use crate::graphics::transform::{Mat3, Vec2};

verus! {

/// A buffer binding target.
#[derive(Debug, Copy, Clone, PartialEq, Eq, Hash, Structural)]
pub enum BufferTarget {
    /// The vertex-attribute buffer.
    Vertex,
    /// The element-index buffer.
    Element,
}

/// A hint to the driver as to how a buffer object's data store will be
/// accessed. It does not constrain the actual usage of the data store.
#[derive(Debug, Copy, Clone, PartialEq, Eq, Hash, Structural)]
pub enum BufferUsage {
    /// The data store contents will be modified once and used at most a few times.
    StreamDraw,
    /// The data store contents will be modified once and used many times.
    StaticDraw,
    /// The data store contents will be modified repeatedly and used many times.
    DynamicDraw,
}

/// The primitive interpretation of a vertex stream in a draw call.
#[derive(Debug, Copy, Clone, PartialEq, Eq, Hash, Structural)]
pub enum PrimitiveMode {
    /// Every three vertices form one triangle.
    Triangles,
    /// Each vertex after the second forms a triangle with its two predecessors.
    TriangleStrip,
}

/// One call into the graphics driver.
#[derive(Debug, Clone, PartialEq, Eq)]
pub enum Command {
    /// Resize the viewport to the given pixel dimensions.
    Viewport { width: u32, height: u32 },
    /// Set the color used to clear the framebuffer.
    ClearColor { color: Color },
    /// Clear the framebuffer's color buffer.
    Clear,
    /// Enable blending.
    EnableBlend,
    /// Disable blending.
    DisableBlend,
    /// Select the blend equations for the color and alpha channels.
    BlendEquationSeparate { func_rgb: BlendFunc, func_alpha: BlendFunc },
    /// Select the four blend factors.
    BlendFuncSeparate {
        src_rgb: BlendParam,
        dst_rgb: BlendParam,
        src_alpha: BlendParam,
        dst_alpha: BlendParam,
    },
    /// Make the given program current; zero deselects.
    UseProgram { program: u32 },
    /// Assign a matrix to the uniform at `location` of the current program.
    UniformMat3 { location: i32, value: Mat3 },
    /// Assign an integer to the uniform at `location`.
    UniformInt { location: i32, value: i32 },
    /// Assign a boolean to the uniform at `location`.
    UniformBool { location: i32, value: bool },
    /// Assign a four-component vector to the uniform at `location`.
    UniformVec4 { location: i32, value: Color },
    /// Select the active texture unit.
    ActiveTexture { unit: u32 },
    /// Bind a texture to the 2D target; zero unbinds.
    BindTexture { texture: u32 },
    /// Bind a vertex-array object; zero unbinds.
    BindVertexArray { array: u32 },
    /// Bind a buffer object to `target`; zero unbinds.
    BindBuffer { target: BufferTarget, buffer: u32 },
    /// Create the bound buffer's data store from packed 2D vertices.
    UploadVertices { target: BufferTarget, vertices: Vec<BasicVertex2D>, usage: BufferUsage },
    /// Create the bound buffer's data store from packed 2D positions.
    UploadPositions { target: BufferTarget, positions: Vec<Vec2>, usage: BufferUsage },
    /// Create the bound buffer's data store from 32-bit indices.
    UploadIndices { target: BufferTarget, indices: Vec<u32>, usage: BufferUsage },
    /// Describe one vertex attribute of the bound buffer.
    VertexAttribPointer { attrib: VertexAttrib },
    /// Enable the vertex attribute with the given index.
    EnableVertexAttribArray { index: u32 },
    /// Upload RGBA pixels to the bound 2D texture.
    TexImage2D { width: i32, height: i32, data: Vec<u8> },
    /// Upload RGBA pixels to a region of the bound 2D texture.
    TexSubImage2D { x: i32, y: i32, width: i32, height: i32, data: Vec<u8> },
    /// Generate mipmaps for the bound 2D texture.
    GenerateMipmap,
    /// Draw `count` vertices starting at `first` from the bound buffer.
    DrawArrays { mode: PrimitiveMode, first: i32, count: i32 },
    /// Draw `count` indices from the bound element buffer as triangles.
    DrawElements { count: i32 },
    /// Release a shader object.
    DeleteShader { shader: u32 },
    /// Release a program object.
    DeleteProgram { program: u32 },
    /// Release a buffer object.
    DeleteBuffer { buffer: u32 },
    /// Release a vertex-array object.
    DeleteVertexArray { array: u32 },
    /// Release a texture object.
    DeleteTexture { texture: u32 },
}

/// Whether `c` is the upload of exactly `vertices` to `target` with the
/// given usage hint. Commands carry their payload as a vector, so the
/// contracts compare it by its view.
pub open spec fn is_upload_vertices(
    c: Command,
    target: BufferTarget,
    vertices: Seq<BasicVertex2D>,
    usage: BufferUsage,
) -> bool {
    c matches Command::UploadVertices { target: t, vertices: v, usage: u } && t == target && v@
        == vertices && u == usage
}

} // verus!
