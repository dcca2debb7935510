//! Batched rendering of quads and triangles.
//!
//! Draw requests accumulate vertices in one growable buffer, partitioned
//! into contiguous runs ("batches") keyed by texture identity and blend
//! mode. A new batch starts only when the incoming key differs from the
//! last batch's key or the last batch would outgrow the driver's signed
//! 32-bit vertex count: run-length grouping over the request stream, with
//! no reordering across unrelated keys.

use vstd::prelude::*;

use crate::commands::{BufferTarget, Command};
use crate::fixed::{fx_mul, fx_mul_int, lemma_fx_mul_bound};
use crate::graphics::blend::{BlendFunc, BlendMode, BlendParam};
use crate::graphics::color::Color;
use crate::graphics::context::{ctx_logged, Buffer, GraphicsContext, Program, VertexArray};
use crate::graphics::error::GraphicsError;
use crate::graphics::primitives::{
    pipeline_complete, AttribKind, BasicPipeline2D, BasicVertex2D, RenderState, VertexAttrib,
};
use crate::graphics::rect::rect_bounded;
use crate::graphics::texture::TextureView2D;
use crate::graphics::transform::{rotate, rotate_spec, vec2_bounded, Rotation, Vec2, Vec2Spec};

verus! {

/// Largest vertex count of one batch: the driver's draw call takes a
/// signed 32-bit count.
pub const MAX_BATCH_VERTICES: usize = 0x7FFF_FFFF;

/// Determines whether two primitives can be drawn in the same batch:
/// the texture they sample (by driver identity) and their blend mode.
#[derive(Debug, Clone, Copy)]
pub struct BatchKey {
    pub texture: Option<u32>,
    pub blend: Option<BlendMode>,
}

/// Compares two batch keys.
pub fn key_eq(a: &BatchKey, b: &BatchKey) -> (r: bool)
    ensures
        r == (*a == *b),
{
    let tex_eq = match (a.texture, b.texture) {
        (Option::None, Option::None) => true,
        (Option::Some(x), Option::Some(y)) => x == y,
        _ => false,
    };
    let blend_eq = crate::graphics::blend::opt_blend_eq(&a.blend, &b.blend);
    tex_eq && blend_eq
}

/// A contiguous run of vertices sharing one key, flushed with one draw
/// call.
#[derive(Debug, Clone, Copy)]
pub struct Batch {
    pub key: BatchKey,
    /// Start of this batch in the vertex buffer.
    pub start: usize,
    /// End of this batch in the vertex buffer (one past the last vertex).
    pub end: usize,
}

/// The mathematical value of a [`Batch`].
pub ghost struct BatchS {
    pub key: BatchKey,
    pub start: int,
    pub end: int,
}

impl View for Batch {
    type V = BatchS;

    open spec fn view(&self) -> BatchS {
        BatchS { key: self.key, start: self.start as int, end: self.end as int }
    }
}

impl Batch {
    /// The number of vertices in this batch.
    pub fn len(&self) -> (n: usize)
        requires
            self.start <= self.end,
        ensures
            n == self@.end - self@.start,
    {
        self.end - self.start
    }
}

/// The batch descriptors as mathematical values.
pub open spec fn seq_view(batches: Seq<Batch>) -> Seq<BatchS> {
    batches.map_values(|b: Batch| b@)
}

/// One past the last vertex covered by `batches`.
pub open spec fn batches_end(batches: Seq<BatchS>) -> int {
    if batches.len() == 0 {
        0
    } else {
        batches.last().end
    }
}

/// The batch list after appending `n` vertices under `key`: the last
/// batch is extended when it has the same key and room for `n` more
/// vertices, otherwise a new batch opens at the current end.
pub open spec fn push_spec(batches: Seq<BatchS>, key: BatchKey, n: int) -> Seq<BatchS> {
    if batches.len() > 0 && batches.last().key == key && batches.last().end
        - batches.last().start + n <= MAX_BATCH_VERTICES {
        batches.update(
            batches.len() - 1,
            BatchS { key, start: batches.last().start, end: batches.last().end + n },
        )
    } else {
        batches.push(BatchS { key, start: batches_end(batches), end: batches_end(batches) + n })
    }
}

/// The batch list partitions the first `vertex_count` vertices into
/// contiguous runs, each within the driver's per-call vertex limit.
pub open spec fn batches_wf(batches: Seq<BatchS>, vertex_count: int) -> bool {
    &&& forall|i: int|
        0 <= i < batches.len() ==> 0 <= #[trigger] batches[i].start <= batches[i].end
    &&& forall|i: int|
        0 <= i < batches.len() ==> #[trigger] batches[i].end - batches[i].start
            <= MAX_BATCH_VERTICES
    &&& forall|i: int|
        0 <= i < batches.len() ==> #[trigger] batches[i].start == if i == 0 {
            0
        } else {
            batches[i - 1].end
        }
    &&& forall|i: int| 0 <= i < batches.len() ==> #[trigger] batches[i].end <= vertex_count
    &&& batches_end(batches) == vertex_count
}

/// Appending under a key preserves well-formedness.
pub proof fn lemma_push_spec_wf(batches: Seq<BatchS>, key: BatchKey, n: int, vertex_count: int)
    requires
        batches_wf(batches, vertex_count),
        0 <= n <= MAX_BATCH_VERTICES,
    ensures
        batches_wf(push_spec(batches, key, n), vertex_count + n),
{
    let pushed = push_spec(batches, key, n);
    assert forall|i: int| 0 <= i < pushed.len() implies #[trigger] pushed[i].start == if i == 0 {
        0
    } else {
        pushed[i - 1].end
    } by {
        assert(batches_wf(batches, vertex_count));
    }
}

/// The batch lists produced by a run of same-key requests: each request
/// appends its count under `key`.
pub open spec fn push_run(batches: Seq<BatchS>, key: BatchKey, counts: Seq<int>) -> Seq<BatchS>
    decreases counts.len(),
{
    if counts.len() == 0 {
        batches
    } else {
        push_run(push_spec(batches, key, counts[0]), key, counts.drop_first())
    }
}

/// The total of a sequence of counts.
pub open spec fn counts_sum(counts: Seq<int>) -> int
    decreases counts.len(),
{
    if counts.len() == 0 {
        0
    } else {
        counts[0] + counts_sum(counts.drop_first())
    }
}

/// A sum of nonnegative counts is nonnegative.
proof fn lemma_counts_sum_nonneg(counts: Seq<int>)
    requires
        forall|i: int| 0 <= i < counts.len() ==> 0 <= #[trigger] counts[i],
    ensures
        0 <= counts_sum(counts),
    decreases counts.len(),
{
    if counts.len() > 0 {
        assert(forall|i: int|
            0 <= i < counts.drop_first().len() ==> 0 <= #[trigger] counts.drop_first()[i]);
        lemma_counts_sum_nonneg(counts.drop_first());
    }
}

/// Helper for the single-batch law: starting from one batch under `key`
/// covering `[0, m)`, a run of same-key requests whose total still fits
/// the vertex limit only ever extends that batch.
proof fn lemma_push_run_extends(key: BatchKey, m: int, counts: Seq<int>)
    requires
        0 <= m,
        forall|i: int| 0 <= i < counts.len() ==> 0 <= #[trigger] counts[i],
        m + counts_sum(counts) <= MAX_BATCH_VERTICES,
    ensures
        push_run(seq![BatchS { key, start: 0, end: m }], key, counts) == seq![
            BatchS { key, start: 0, end: m + counts_sum(counts) },
        ],
    decreases counts.len(),
{
    let bs = seq![BatchS { key, start: 0, end: m }];
    if counts.len() == 0 {
        assert(push_run(bs, key, counts) =~= seq![
            BatchS { key, start: 0, end: m + counts_sum(counts) },
        ]);
    } else {
        assert(forall|i: int|
            0 <= i < counts.drop_first().len() ==> 0 <= #[trigger] counts.drop_first()[i]);
        lemma_counts_sum_nonneg(counts.drop_first());
        let stepped = push_spec(bs, key, counts[0]);
        assert(stepped =~= seq![BatchS { key, start: 0, end: m + counts[0] }]);
        lemma_push_run_extends(key, m + counts[0], counts.drop_first());
    }
}

/// For any sequence of draw requests with one shared key, the renderer
/// produces exactly one batch covering all appended vertices, provided
/// the total vertex count stays under the driver's per-call maximum.
pub proof fn lemma_same_key_single_batch(key: BatchKey, counts: Seq<int>)
    requires
        counts.len() > 0,
        forall|i: int| 0 <= i < counts.len() ==> 0 <= #[trigger] counts[i],
        counts_sum(counts) <= MAX_BATCH_VERTICES,
    ensures
        push_run(Seq::empty(), key, counts) == seq![
            BatchS { key, start: 0, end: counts_sum(counts) },
        ],
{
    assert(forall|i: int|
        0 <= i < counts.drop_first().len() ==> 0 <= #[trigger] counts.drop_first()[i]);
    lemma_counts_sum_nonneg(counts.drop_first());
    let first = push_spec(Seq::empty(), key, counts[0]);
    assert(first =~= seq![BatchS { key, start: 0, end: counts[0] }]);
    lemma_push_run_extends(key, counts[0], counts.drop_first());
}

/// For requests alternating between two distinct keys A, B, A, the
/// renderer produces three batches: batching is strictly adjacency
/// based, so an equal key separated by a different one is never merged.
pub proof fn lemma_alternating_keys_three_batches(
    a: BatchKey,
    b: BatchKey,
    n1: int,
    n2: int,
    n3: int,
)
    requires
        a != b,
        0 <= n1 <= MAX_BATCH_VERTICES,
        0 <= n2 <= MAX_BATCH_VERTICES,
        0 <= n3 <= MAX_BATCH_VERTICES,
    ensures
        push_spec(push_spec(push_spec(Seq::empty(), a, n1), b, n2), a, n3) == seq![
            BatchS { key: a, start: 0, end: n1 },
            BatchS { key: b, start: n1, end: n1 + n2 },
            BatchS { key: a, start: n1 + n2, end: n1 + n2 + n3 },
        ],
{
    let s1 = push_spec(Seq::empty(), a, n1);
    assert(s1 =~= seq![BatchS { key: a, start: 0, end: n1 }]);
    let s2 = push_spec(s1, b, n2);
    assert(s2 =~= seq![
        BatchS { key: a, start: 0, end: n1 },
        BatchS { key: b, start: n1, end: n1 + n2 },
    ]);
    let s3 = push_spec(s2, a, n3);
    assert(s3 =~= seq![
        BatchS { key: a, start: 0, end: n1 },
        BatchS { key: b, start: n1, end: n1 + n2 },
        BatchS { key: a, start: n1 + n2, end: n1 + n2 + n3 },
    ]);
}

/// A quad ready for batching: its key and its four corner vertices in
/// clockwise order starting at the top-left.
#[derive(Debug)]
pub struct Quad {
    pub key: BatchKey,
    pub vertices: [BasicVertex2D; 4],
}

/// The relative corner `i` (clockwise from the top-left) of an
/// unrotated quad of the given size around `origin`.
pub open spec fn quad_rel_corner(size: Vec2Spec, origin: Vec2Spec, i: int) -> Vec2Spec {
    let lx = fx_mul_int(0 - origin.x, size.x);
    let ly = fx_mul_int(0 - origin.y, size.y);
    let hx = fx_mul_int(65536 - origin.x, size.x);
    let hy = fx_mul_int(65536 - origin.y, size.y);
    if i == 0 {
        Vec2Spec { x: lx, y: ly }
    } else if i == 1 {
        Vec2Spec { x: hx, y: ly }
    } else if i == 2 {
        Vec2Spec { x: hx, y: hy }
    } else {
        Vec2Spec { x: lx, y: hy }
    }
}

/// The world-space corner `i` of a quad: the relative corner rotated and
/// moved to `position`, so that arbitrary rotation is pre-baked into the
/// vertex positions.
pub open spec fn quad_corner_spec(
    position: Vec2Spec,
    size: Vec2Spec,
    origin: Vec2Spec,
    cos: int,
    sin: int,
    i: int,
) -> Vec2Spec {
    let r = crate::graphics::transform::mat_apply_spec(
        rotate_spec(cos, sin),
        quad_rel_corner(size, origin, i),
    );
    Vec2Spec { x: position.x + r.x, y: position.y + r.y }
}

/// The texture coordinate of corner `i` for a source rectangle spanning
/// `tl` to `br`.
pub open spec fn quad_uv_spec(tl: Vec2Spec, br: Vec2Spec, i: int) -> Vec2Spec {
    if i == 0 {
        Vec2Spec { x: tl.x, y: tl.y }
    } else if i == 1 {
        Vec2Spec { x: br.x, y: tl.y }
    } else if i == 2 {
        Vec2Spec { x: br.x, y: br.y }
    } else {
        Vec2Spec { x: tl.x, y: br.y }
    }
}

impl Quad {
    /// Starts building a textured quad: positioned at the origin, sized
    /// to the view's pixel size, untinted and unrotated.
    pub fn textured(texture: TextureView2D) -> (builder: QuadBuilder)
        requires
            texture.texture.spec_width() <= 0x40_0000,
            texture.texture.spec_height() <= 0x40_0000,
            rect_bounded(texture.source@, 0x2_0000),
        ensures
            builder.tint == (Color { r: 65536, g: 65536, b: 65536, a: 65536 }),
            builder.position == (Vec2 { x: 0, y: 0 }),
            builder.size@.x == fx_mul_int(
                texture.texture.spec_width() as int * 65536,
                texture.source@.bottom_right.x - texture.source@.top_left.x,
            ),
            builder.size@.y == fx_mul_int(
                texture.texture.spec_height() as int * 65536,
                texture.source@.bottom_right.y - texture.source@.top_left.y,
            ),
            builder.origin == (Vec2 { x: 0, y: 0 }),
            builder.rotation == (Rotation { cos: 65536, sin: 0 }),
            builder.texture matches Option::Some(v) && v.texture.spec_id()
                == texture.texture.spec_id() && v.source == texture.source,
    {
        let size = texture.size();
        QuadBuilder {
            tint: Color::white(),
            position: Vec2 { x: 0, y: 0 },
            size,
            origin: Vec2 { x: 0, y: 0 },
            rotation: Rotation::zero(),
            texture: Option::Some(texture),
        }
    }

    /// Starts building an untextured quad of the given size.
    pub fn untextured(size: Vec2) -> (builder: QuadBuilder)
        ensures
            builder.tint == (Color { r: 65536, g: 65536, b: 65536, a: 65536 }),
            builder.position == (Vec2 { x: 0, y: 0 }),
            builder.size == size,
            builder.origin == (Vec2 { x: 0, y: 0 }),
            builder.rotation == (Rotation { cos: 65536, sin: 0 }),
            builder.texture is None,
    {
        QuadBuilder {
            tint: Color::white(),
            position: Vec2 { x: 0, y: 0 },
            size,
            origin: Vec2 { x: 0, y: 0 },
            rotation: Rotation::zero(),
            texture: Option::None,
        }
    }
}

/// Configuration of one quad before its corner vertices are computed.
#[derive(Debug)]
pub struct QuadBuilder {
    /// The texture to draw, or `None` for a solid quad.
    pub texture: Option<TextureView2D>,
    /// The color that is multiplied with the texture color.
    pub tint: Color,
    /// The position of the origin in global coordinates.
    pub position: Vec2,
    /// The size of the quad in global coordinates.
    pub size: Vec2,
    /// The origin for position and rotation in local coordinates where
    /// `(0, 0)` is the top-left and `(1, 1)` the bottom-right corner.
    pub origin: Vec2,
    /// Rotation around the origin.
    pub rotation: Rotation,
}

impl QuadBuilder {
    /// Sets the position, but also sets the origin to the center of the
    /// quad.
    pub fn centered_at(self, position: Vec2) -> (r: QuadBuilder)
        ensures
            r.position == position,
            r.origin == (Vec2 { x: 32768, y: 32768 }),
            r.texture == self.texture,
            r.tint == self.tint,
            r.size == self.size,
            r.rotation == self.rotation,
    {
        self.with_position(position).with_origin(Vec2 { x: 32768, y: 32768 })
    }

    /// Multiplies the current size of the builder by `factor`.
    pub fn scale(self, factor: i64) -> (r: QuadBuilder)
        requires
            vec2_bounded(self.size@, 0x40_0000_0000),
            -0x40_0000_0000 <= factor <= 0x40_0000_0000,
        ensures
            r.size@.x == fx_mul_int(self.size@.x, factor as int),
            r.size@.y == fx_mul_int(self.size@.y, factor as int),
            r.texture == self.texture,
            r.tint == self.tint,
            r.position == self.position,
            r.origin == self.origin,
            r.rotation == self.rotation,
    {
        QuadBuilder {
            size: Vec2 { x: fx_mul(self.size.x, factor), y: fx_mul(self.size.y, factor) },
            ..self
        }
    }

    /// Sets the tint color.
    pub fn with_tint(self, tint: Color) -> (r: QuadBuilder)
        ensures
            r.tint == tint,
            r.texture == self.texture,
            r.position == self.position,
            r.size == self.size,
            r.origin == self.origin,
            r.rotation == self.rotation,
    {
        QuadBuilder { tint, ..self }
    }

    /// Sets the relative origin.
    pub fn with_origin(self, origin: Vec2) -> (r: QuadBuilder)
        ensures
            r.origin == origin,
            r.texture == self.texture,
            r.tint == self.tint,
            r.position == self.position,
            r.size == self.size,
            r.rotation == self.rotation,
    {
        QuadBuilder { origin, ..self }
    }

    /// Sets the position.
    pub fn with_position(self, position: Vec2) -> (r: QuadBuilder)
        ensures
            r.position == position,
            r.texture == self.texture,
            r.tint == self.tint,
            r.size == self.size,
            r.origin == self.origin,
            r.rotation == self.rotation,
    {
        QuadBuilder { position, ..self }
    }

    /// Sets the size.
    pub fn with_size(self, size: Vec2) -> (r: QuadBuilder)
        ensures
            r.size == size,
            r.texture == self.texture,
            r.tint == self.tint,
            r.position == self.position,
            r.origin == self.origin,
            r.rotation == self.rotation,
    {
        QuadBuilder { size, ..self }
    }

    /// Sets the rotation around the origin.
    pub fn with_rotation(self, rotation: Rotation) -> (r: QuadBuilder)
        ensures
            r.rotation == rotation,
            r.texture == self.texture,
            r.tint == self.tint,
            r.position == self.position,
            r.size == self.size,
            r.origin == self.origin,
    {
        QuadBuilder { rotation, ..self }
    }

    /// Computes the quad's four corner vertices and its batching key:
    /// textured quads draw with alpha blending.
    pub fn build(self) -> (quad: Quad)
        requires
            vec2_bounded(self.position@, 0x8_0000_0000),
            vec2_bounded(self.size@, 0x8_0000_0000),
            vec2_bounded(self.origin@, 0x1_0000),
            -0x2_0000 <= self.rotation.cos <= 0x2_0000,
            -0x2_0000 <= self.rotation.sin <= 0x2_0000,
            self.texture matches Option::Some(v) ==> rect_bounded(v.source@, 0x2_0000),
        ensures
            quad.key.texture == (match self.texture {
                Option::Some(v) => Option::Some(v.texture.spec_id()),
                Option::None => Option::None::<u32>,
            }),
            quad.key.blend == Option::Some(
                BlendMode {
                    func_rgb: BlendFunc::Add,
                    func_alpha: BlendFunc::Add,
                    src_rgb: BlendParam::SrcAlpha,
                    src_alpha: BlendParam::One,
                    dst_rgb: BlendParam::OneMinusSrcAlpha,
                    dst_alpha: BlendParam::Zero,
                },
            ),
            forall|i: int|
                0 <= i < 4 ==> #[trigger] quad.vertices[i].position@ == quad_corner_spec(
                    self.position@,
                    self.size@,
                    self.origin@,
                    self.rotation.cos as int,
                    self.rotation.sin as int,
                    i,
                ),
            forall|i: int|
                0 <= i < 4 ==> #[trigger] quad.vertices[i].tex_coord@ == (match self.texture {
                    Option::Some(v) => quad_uv_spec(v.source@.top_left, v.source@.bottom_right, i),
                    Option::None => quad_uv_spec(
                        Vec2Spec { x: 0, y: 0 },
                        Vec2Spec { x: 65536, y: 65536 },
                        i,
                    ),
                }),
            forall|i: int| 0 <= i < 4 ==> #[trigger] quad.vertices[i].color == self.tint,
    {
        let (uv_tl, uv_br) = match &self.texture {
            Option::Some(view) => (view.source.top_left, view.source.bottom_right),
            Option::None => (Vec2 { x: 0, y: 0 }, Vec2 { x: 65536, y: 65536 }),
        };
        proof {
            lemma_fx_mul_bound(0 - self.origin@.x, self.size@.x, 0x1_0000, 0x8_0000_0000);
            lemma_fx_mul_bound(0 - self.origin@.y, self.size@.y, 0x1_0000, 0x8_0000_0000);
            lemma_fx_mul_bound(65536 - self.origin@.x, self.size@.x, 0x2_0000, 0x8_0000_0000);
            lemma_fx_mul_bound(65536 - self.origin@.y, self.size@.y, 0x2_0000, 0x8_0000_0000);
        }
        let lx = fx_mul(0 - self.origin.x, self.size.x);
        let ly = fx_mul(0 - self.origin.y, self.size.y);
        let hx = fx_mul(65536 - self.origin.x, self.size.x);
        let hy = fx_mul(65536 - self.origin.y, self.size.y);
        let rotation = rotate(self.rotation);

        let c0 = corner_vertex(self.position, &rotation, Vec2 { x: lx, y: ly });
        let c1 = corner_vertex(self.position, &rotation, Vec2 { x: hx, y: ly });
        let c2 = corner_vertex(self.position, &rotation, Vec2 { x: hx, y: hy });
        let c3 = corner_vertex(self.position, &rotation, Vec2 { x: lx, y: hy });

        let vertices = [
            BasicVertex2D {
                position: c0,
                tex_coord: Vec2 { x: uv_tl.x, y: uv_tl.y },
                color: self.tint,
            },
            BasicVertex2D {
                position: c1,
                tex_coord: Vec2 { x: uv_br.x, y: uv_tl.y },
                color: self.tint,
            },
            BasicVertex2D {
                position: c2,
                tex_coord: Vec2 { x: uv_br.x, y: uv_br.y },
                color: self.tint,
            },
            BasicVertex2D {
                position: c3,
                tex_coord: Vec2 { x: uv_tl.x, y: uv_br.y },
                color: self.tint,
            },
        ];
        Quad {
            key: BatchKey {
                texture: match &self.texture {
                    Option::Some(view) => Option::Some(view.texture.raw().id()),
                    Option::None => Option::None,
                },
                blend: Option::Some(BlendMode::alpha()),
            },
            vertices,
        }
    }
}

/// The batched renderer: a shared pipeline, one vertex buffer and
/// layout object, and the accumulated vertices partitioned into batches.
/// It is stateless across frames except for the backend objects: a flush
/// drains all batches and vertices.
#[derive(Debug)]
pub struct BatchRender {
    pub pipeline: BasicPipeline2D,
    pub vbo: Buffer,
    pub vao: VertexArray,
    pub batches: Vec<Batch>,
    pub vertices: Vec<BasicVertex2D>,
}

/// The driver calls that creating a batch renderer issues: bind the
/// layout object and buffer, describe and enable the three vertex
/// attributes, then unbind both.
pub open spec fn batch_setup_cmds(vao_id: u32, vbo_id: u32) -> Seq<Command> {
    seq![
        Command::BindVertexArray { array: vao_id },
        Command::BindBuffer { target: BufferTarget::Vertex, buffer: vbo_id },
        Command::VertexAttribPointer {
            attrib: VertexAttrib {
                index: 0,
                size: 2,
                kind: AttribKind::Float,
                normalized: false,
                stride: 32,
                offset: 0,
            },
        },
        Command::EnableVertexAttribArray { index: 0 },
        Command::VertexAttribPointer {
            attrib: VertexAttrib {
                index: 1,
                size: 2,
                kind: AttribKind::Float,
                normalized: false,
                stride: 32,
                offset: 8,
            },
        },
        Command::EnableVertexAttribArray { index: 1 },
        Command::VertexAttribPointer {
            attrib: VertexAttrib {
                index: 2,
                size: 4,
                kind: AttribKind::Float,
                normalized: false,
                stride: 32,
                offset: 16,
            },
        },
        Command::EnableVertexAttribArray { index: 2 },
        Command::BindBuffer { target: BufferTarget::Vertex, buffer: 0 },
        Command::BindVertexArray { array: 0 },
    ]
}

/// The six vertices that `draw_quad` appends for one quad: two triangles
/// with winding order 0-2-1, 0-3-2.
pub open spec fn quad_stream(q: Quad) -> Seq<BasicVertex2D> {
    seq![
        q.vertices[0],
        q.vertices[2],
        q.vertices[1],
        q.vertices[0],
        q.vertices[3],
        q.vertices[2],
    ]
}

/// The three vertices that `draw_triangle` appends: untextured corners
/// in the given color.
pub open spec fn triangle_stream(corners: [Vec2; 3], color: Color) -> Seq<BasicVertex2D> {
    seq![
        BasicVertex2D { position: corners[0], tex_coord: Vec2 { x: 0, y: 0 }, color },
        BasicVertex2D { position: corners[1], tex_coord: Vec2 { x: 0, y: 0 }, color },
        BasicVertex2D { position: corners[2], tex_coord: Vec2 { x: 0, y: 0 }, color },
    ]
}

impl BatchRender {
    /// The batches partition the accumulated vertices, and the shared
    /// pipeline resolves all of its uniforms.
    pub open spec fn wf(&self) -> bool {
        &&& batches_wf(seq_view(self.batches@), self.vertices@.len() as int)
        &&& pipeline_complete(&self.pipeline)
    }

    /// The backend objects of this renderer, unchanged by draws.
    pub open spec fn same_backend(&self, other: &BatchRender) -> bool {
        &&& self.pipeline == other.pipeline
        &&& self.vbo == other.vbo
        &&& self.vao == other.vao
    }

    /// Assembles a batch renderer around its backend objects and records
    /// the one-time vertex layout setup.
    pub fn new(
        ctx: &mut GraphicsContext,
        pipeline: BasicPipeline2D,
        vbo: Buffer,
        vao: VertexArray,
    ) -> (r: BatchRender)
        requires
            pipeline_complete(&pipeline),
        ensures
            r.wf(),
            r.pipeline == pipeline,
            r.vbo == vbo,
            r.vao == vao,
            r.batches@.len() == 0,
            r.vertices@.len() == 0,
            ctx_logged(*old(ctx), *final(ctx), batch_setup_cmds(vao.id, vbo.id)),
    {
        vao.bind(ctx);
        Buffer::bind(ctx, BufferTarget::Vertex, &vbo);
        let attribs = BasicVertex2D::attributes();
        ctx.emit(Command::VertexAttribPointer { attrib: attribs[0] });
        ctx.emit(Command::EnableVertexAttribArray { index: attribs[0].index });
        ctx.emit(Command::VertexAttribPointer { attrib: attribs[1] });
        ctx.emit(Command::EnableVertexAttribArray { index: attribs[1].index });
        ctx.emit(Command::VertexAttribPointer { attrib: attribs[2] });
        ctx.emit(Command::EnableVertexAttribArray { index: attribs[2].index });
        Buffer::unbind(ctx, BufferTarget::Vertex);
        VertexArray::unbind(ctx);
        proof {
            assert(final(ctx).log@ =~= old(ctx).log@ + batch_setup_cmds(vao.id, vbo.id));
        }
        BatchRender { pipeline, vbo, vao, batches: Vec::new(), vertices: Vec::new() }
    }

    /// Appends one quad as six vertices (two triangles, winding order
    /// 0-2-1, 0-3-2) under the quad's key.
    pub fn draw_quad(&mut self, quad: Quad)
        requires
            old(self).wf(),
        ensures
            final(self).wf(),
            final(self).vertices@ == old(self).vertices@ + quad_stream(quad),
            seq_view(final(self).batches@) == push_spec(
                seq_view(old(self).batches@),
                quad.key,
                6,
            ),
            final(self).same_backend(old(self)),
    {
        self.vertices.push(quad.vertices[0]);
        self.vertices.push(quad.vertices[2]);
        self.vertices.push(quad.vertices[1]);
        self.vertices.push(quad.vertices[0]);
        self.vertices.push(quad.vertices[3]);
        self.vertices.push(quad.vertices[2]);
        proof {
            assert(self.vertices@ =~= old(self).vertices@ + quad_stream(quad));
        }
        self.update_batch(quad.key, 6);
    }

    /// Appends three untextured vertices in the given color under the
    /// key of untextured, unblended geometry.
    pub fn draw_triangle(&mut self, corners: [Vec2; 3], color: Color)
        requires
            old(self).wf(),
        ensures
            final(self).wf(),
            final(self).vertices@ == old(self).vertices@ + triangle_stream(corners, color),
            seq_view(final(self).batches@) == push_spec(
                seq_view(old(self).batches@),
                BatchKey { texture: Option::None, blend: Option::None },
                3,
            ),
            final(self).same_backend(old(self)),
    {
        self.vertices.push(BasicVertex2D::with_position_color(corners[0], color));
        self.vertices.push(BasicVertex2D::with_position_color(corners[1], color));
        self.vertices.push(BasicVertex2D::with_position_color(corners[2], color));
        proof {
            assert(self.vertices@ =~= old(self).vertices@ + triangle_stream(corners, color));
        }
        let key = BatchKey { texture: Option::None, blend: Option::None };
        self.update_batch(key, 3);
    }

    /// Ensures that the last batch in the `batches` vector matches the
    /// given key and absorbs the vertices just appended, creating a new
    /// batch if necessary.
    fn update_batch(&mut self, key: BatchKey, num_vertices: usize)
        requires
            batches_wf(
                seq_view(old(self).batches@),
                old(self).vertices@.len() - num_vertices as int,
            ),
            num_vertices <= old(self).vertices@.len(),
            num_vertices <= MAX_BATCH_VERTICES,
        ensures
            seq_view(final(self).batches@) == push_spec(
                seq_view(old(self).batches@),
                key,
                num_vertices as int,
            ),
            batches_wf(seq_view(final(self).batches@), final(self).vertices@.len() as int),
            final(self).vertices == old(self).vertices,
            final(self).same_backend(old(self)),
    {
        proof {
            lemma_push_spec_wf(
                seq_view(old(self).batches@),
                key,
                num_vertices as int,
                old(self).vertices@.len() - num_vertices as int,
            );
        }
        let n_batches = self.batches.len();
        let new_batch = if n_batches == 0 {
            true
        } else {
            let last = self.batches[n_batches - 1];
            let same_key = key_eq(&last.key, &key);
            let has_room = last.end - last.start + num_vertices <= MAX_BATCH_VERTICES;
            !same_key || !has_room
        };
        if new_batch {
            let start = self.vertices.len() - num_vertices;
            self.batches.push(Batch { key, start, end: start });
        }
        let last = match self.batches.pop() {
            Option::Some(b) => b,
            Option::None => vstd::pervasive::unreached(),
        };
        let end = self.vertices.len();
        self.batches.push(Batch { key: last.key, start: last.start, end });
        proof {
            assert(seq_view(final(self).batches@) =~= push_spec(
                seq_view(old(self).batches@),
                key,
                num_vertices as int,
            ));
        }
    }
}

/// The rolling state of a flush: the pipeline as the successive batches
/// configure it, the context's remembered blend mode, and the texture
/// bound most recently during this flush (zero before the first bind).
pub ghost struct FlushState {
    pub pipeline: BasicPipeline2D,
    pub blend: Option<BlendMode>,
    pub last_tex: u32,
}

/// The pipeline configured for one batch: texture unit zero when the
/// batch samples a texture, solid color otherwise, and the batch's blend
/// mode.
pub open spec fn flush_pipe_for_key(p: BasicPipeline2D, key: BatchKey) -> BasicPipeline2D {
    crate::graphics::primitives::pipe_set_blend(
        crate::graphics::primitives::pipe_set_texture(
            p,
            if key.texture is Some {
                Option::Some(0i32)
            } else {
                Option::None
            },
        ),
        key.blend,
    )
}

/// The texture bind a batch issues: only when it samples a texture that
/// is not already bound from an earlier batch of this flush.
pub open spec fn step_bind_cmds(last_tex: u32, key: BatchKey) -> Seq<Command> {
    match key.texture {
        Option::Some(id) => if id != last_tex {
            seq![Command::BindTexture { texture: id }]
        } else {
            Seq::empty()
        },
        Option::None => Seq::empty(),
    }
}

/// The texture remembered after a batch.
pub open spec fn step_last_tex(last_tex: u32, key: BatchKey) -> u32 {
    match key.texture {
        Option::Some(id) => id,
        Option::None => last_tex,
    }
}

/// The flush state after one batch under `key`.
pub open spec fn flush_step(st: FlushState, key: BatchKey) -> FlushState {
    let p2 = flush_pipe_for_key(st.pipeline, key);
    FlushState {
        pipeline: crate::graphics::primitives::apply_post(p2),
        blend: p2.blend_mode,
        last_tex: step_last_tex(st.last_tex, key),
    }
}

/// The flush state after a run of batches.
pub open spec fn flush_state_after(st0: FlushState, batches: Seq<BatchS>) -> FlushState
    decreases batches.len(),
{
    if batches.len() == 0 {
        st0
    } else {
        flush_step(flush_state_after(st0, batches.drop_last()), batches.last().key)
    }
}

/// The number of driver calls one batch contributes to a flush.
pub open spec fn step_cmds_len(st: FlushState, key: BatchKey) -> int {
    step_bind_cmds(st.last_tex, key).len() as int + crate::graphics::primitives::apply_cmds(
        flush_pipe_for_key(st.pipeline, key),
        st.blend,
    ).len() as int + 2
}

/// `cmds` is exactly what flushing batch `b` from state `st` issues: the
/// texture bind if needed, the pipeline application, the upload of the
/// batch's vertex slice, and one draw call sized to the batch.
pub open spec fn step_cmds_ok(
    st: FlushState,
    b: BatchS,
    vertices: Seq<BasicVertex2D>,
    cmds: Seq<Command>,
) -> bool {
    let bind = step_bind_cmds(st.last_tex, b.key);
    let p2 = flush_pipe_for_key(st.pipeline, b.key);
    let ac = crate::graphics::primitives::apply_cmds(p2, st.blend);
    &&& cmds.len() == bind.len() + ac.len() + 2
    &&& cmds.take(bind.len() as int) == bind
    &&& cmds.subrange(bind.len() as int, bind.len() + ac.len() as int) == ac
    &&& crate::commands::is_upload_vertices(
        cmds[cmds.len() - 2],
        BufferTarget::Vertex,
        vertices.subrange(b.start, b.end),
        crate::commands::BufferUsage::StaticDraw,
    )
    &&& cmds.last() == (Command::DrawArrays {
        mode: crate::commands::PrimitiveMode::Triangles,
        first: 0,
        count: (b.end - b.start) as i32,
    })
}

/// `cmds` is exactly the command stream of flushing `batches` in order
/// from state `st0`.
pub open spec fn flush_rel(
    st0: FlushState,
    batches: Seq<BatchS>,
    vertices: Seq<BasicVertex2D>,
    cmds: Seq<Command>,
) -> bool
    decreases batches.len(),
{
    if batches.len() == 0 {
        cmds.len() == 0
    } else {
        let st = flush_state_after(st0, batches.drop_last());
        let k = step_cmds_len(st, batches.last().key);
        &&& cmds.len() >= k
        &&& flush_rel(st0, batches.drop_last(), vertices, cmds.take(cmds.len() - k))
        &&& step_cmds_ok(st, batches.last(), vertices, cmds.skip(cmds.len() - k))
    }
}

/// One flush iteration extends the command suffix by exactly the
/// batch's step commands: the log grows by the texture bind, the
/// pipeline application, the vertex upload and the draw call, and the
/// prefix below `base` is untouched.
proof fn lemma_flush_step_log(
    st0: FlushState,
    batches: Seq<BatchS>,
    vertices: Seq<BasicVertex2D>,
    i: int,
    st_i: FlushState,
    b: BatchS,
    base: int,
    log_i: Seq<Command>,
    log_b: Seq<Command>,
    log_a: Seq<Command>,
    log_u: Seq<Command>,
    log_f: Seq<Command>,
    p2: BasicPipeline2D,
)
    requires
        0 <= i < batches.len(),
        b == batches[i],
        st_i == flush_state_after(st0, batches.take(i)),
        flush_rel(st0, batches.take(i), vertices, log_i.skip(base)),
        0 <= base <= log_i.len(),
        p2 == flush_pipe_for_key(st_i.pipeline, b.key),
        log_b == log_i + step_bind_cmds(st_i.last_tex, b.key),
        log_a == log_b + crate::graphics::primitives::apply_cmds(p2, st_i.blend),
        log_u.len() == log_a.len() + 1,
        log_u.drop_last() == log_a,
        crate::commands::is_upload_vertices(
            log_u.last(),
            BufferTarget::Vertex,
            vertices.subrange(b.start, b.end),
            crate::commands::BufferUsage::StaticDraw,
        ),
        log_f == log_u + seq![
            Command::DrawArrays {
                mode: crate::commands::PrimitiveMode::Triangles,
                first: 0,
                count: (b.end - b.start) as i32,
            },
        ],
    ensures
        flush_rel(st0, batches.take(i + 1), vertices, log_f.skip(base)),
        log_f.take(base) == log_i.take(base),
        log_f.len() >= base,
        flush_state_after(st0, batches.take(i + 1)) == flush_step(st_i, b.key),
{
    let bind = step_bind_cmds(st_i.last_tex, b.key);
    let ac = crate::graphics::primitives::apply_cmds(p2, st_i.blend);
    let k = step_cmds_len(st_i, b.key);
    let li = log_i.len() as int;
    assert(log_f.len() == li + k);
    let new_seg = log_f.skip(li);
    assert forall|j: int| 0 <= j < li implies log_f[j] == log_i[j] by {
        assert((log_i + bind)[j] == log_i[j]);
        assert((log_b + ac)[j] == log_b[j]);
        assert(log_u.drop_last()[j] == log_u[j]);
        assert(log_f[j] == log_u[j]);
    }
    assert(log_f.take(base) =~= log_i.take(base));
    assert forall|j: int| 0 <= j < bind.len() implies new_seg[j] == bind[j] by {
        assert(log_u.drop_last()[li + j] == log_u[li + j]);
        assert((log_b + ac)[li + j] == log_b[li + j]);
        assert((log_i + bind)[li + j] == bind[j]);
        assert(log_f[li + j] == log_u[li + j]);
    }
    assert forall|j: int| 0 <= j < ac.len() implies new_seg[bind.len() + j] == ac[j] by {
        assert(log_u.drop_last()[li + bind.len() + j] == log_u[li + bind.len() + j]);
        assert((log_b + ac)[log_b.len() + j] == ac[j]);
        assert(log_f[li + bind.len() + j] == log_u[li + bind.len() + j]);
    }
    assert(new_seg.take(bind.len() as int) =~= bind);
    assert(new_seg.subrange(bind.len() as int, bind.len() + ac.len() as int) =~= ac);
    assert(new_seg[new_seg.len() - 2] == log_u.last());
    assert(new_seg.last() == log_f.last());
    assert(step_cmds_ok(st_i, b, vertices, new_seg));
    let suffix = log_f.skip(base);
    assert forall|j: int| 0 <= j < k implies suffix.skip(suffix.len() - k)[j] == new_seg[j] by {
        assert(suffix.skip(suffix.len() - k)[j] == suffix[(li - base) + j]);
        assert(suffix[(li - base) + j] == log_f[li + j]);
        assert(new_seg[j] == log_f[li + j]);
    }
    assert(suffix.skip(suffix.len() - k) =~= new_seg);
    assert forall|j: int| 0 <= j < li - base implies #[trigger] suffix[j] == log_i.skip(base)[j] by {
        assert(suffix[j] == log_f[base + j]);
        assert(log_i.skip(base)[j] == log_i[base + j]);
        assert(log_f[base + j] == log_i[base + j]);
    }
    assert(suffix.take(suffix.len() - k) =~= log_i.skip(base));
    let taken = batches.take(i + 1);
    assert(taken.drop_last() =~= batches.take(i));
    assert(taken.last() == b);
    assert(flush_rel(st0, taken, vertices, suffix));
}

/// The contract of the flush: the renderer empties, the pipeline and
/// blend cache settle to the folded per-batch state, and the log gains
/// exactly the setup commands, the per-batch streams of [`flush_rel`],
/// and the final unbinds.
pub open spec fn batch_draw_post(
    pre: BatchRender,
    post: BatchRender,
    pre_ctx: GraphicsContext,
    post_ctx: GraphicsContext,
    state: RenderState,
    r: Result<(), GraphicsError>,
) -> bool {
    let st0 = FlushState {
        pipeline: crate::graphics::primitives::pipe_set_transform(pre.pipeline, state.transform),
        blend: pre_ctx.blend_mode,
        last_tex: 0,
    };
    let stf = flush_state_after(st0, seq_view(pre.batches@));
    let pre_len = pre_ctx.log@.len() as int;
    let total = post_ctx.log@.len() as int;
    &&& r == Ok::<(), GraphicsError>(())
    &&& post.pipeline == stf.pipeline
    &&& post.vbo == pre.vbo
    &&& post.vao == pre.vao
    &&& post.batches@.len() == 0
    &&& post.vertices@.len() == 0
    &&& post.wf()
    &&& post_ctx.blend_mode == stf.blend
    &&& post_ctx.screen_width == pre_ctx.screen_width
    &&& post_ctx.screen_height == pre_ctx.screen_height
    &&& post_ctx.pixel_projection == pre_ctx.pixel_projection
    &&& total >= pre_len + 6
    &&& post_ctx.log@.take(pre_len) == pre_ctx.log@
    &&& post_ctx.log@.subrange(pre_len, pre_len + 3) == seq![
        Command::ActiveTexture { unit: 0 },
        Command::BindVertexArray { array: pre.vao.id },
        Command::BindBuffer { target: BufferTarget::Vertex, buffer: pre.vbo.id },
    ]
    &&& post_ctx.log@.subrange(total - 3, total) == seq![
        Command::BindVertexArray { array: 0 },
        Command::UseProgram { program: 0 },
        Command::BindTexture { texture: 0 },
    ]
    &&& flush_rel(
        st0,
        seq_view(pre.batches@),
        pre.vertices@,
        post_ctx.log@.subrange(pre_len + 3, total - 3),
    )
}

impl BatchRender {
    /// Flushes every batch in insertion order with one draw call each:
    /// binds the layout object and buffer once, switches the active
    /// texture only when it changes between batches, applies the shared
    /// pipeline per batch (uploading only changed uniforms and blend
    /// state), re-uploads each batch's vertex slice, and finally clears
    /// the accumulator, leaving the renderer empty.
    #[verifier::rlimit(100)]
    pub fn draw(&mut self, ctx: &mut GraphicsContext, state: RenderState) -> (r: Result<
        (),
        GraphicsError,
    >)
        requires
            old(self).wf(),
        ensures
            batch_draw_post(*old(self), *final(self), *old(ctx), *final(ctx), state, r),
    {
        let mut last_tex_id: u32 = 0;
        // Ensure we're using the first texture unit
        ctx.emit(Command::ActiveTexture { unit: 0 });
        self.pipeline.set_transform(state.transform);
        self.vao.bind(ctx);
        Buffer::bind(ctx, BufferTarget::Vertex, &self.vbo);

        let ghost st0 = FlushState {
            pipeline: self.pipeline,
            blend: ctx.blend_mode,
            last_tex: 0,
        };
        let ghost batches0 = self.batches@;
        let ghost vertices0 = self.vertices@;
        let ghost prefix0 = ctx.log@;
        let ghost base = prefix0.len() as int;

        proof {
            assert(prefix0 =~= old(ctx).log@ + seq![
                Command::ActiveTexture { unit: 0 },
                Command::BindVertexArray { array: old(self).vao.id },
                Command::BindBuffer { target: BufferTarget::Vertex, buffer: old(self).vbo.id },
            ]);
            assert(seq_view(batches0).take(0) =~= Seq::<BatchS>::empty());
            assert(ctx.log@.skip(base) =~= Seq::<Command>::empty());
        }
        let n = self.batches.len();
        let mut i: usize = 0;
        while i < n
            invariant
                i <= n,
                n == batches0.len(),
                self.batches@ == batches0,
                self.vertices@ == vertices0,
                self.vbo == old(self).vbo,
                self.vao == old(self).vao,
                batches_wf(seq_view(batches0), vertices0.len() as int),
                crate::graphics::primitives::pipeline_complete(&self.pipeline),
                (FlushState {
                    pipeline: self.pipeline,
                    blend: ctx.blend_mode,
                    last_tex: last_tex_id,
                }) == flush_state_after(st0, seq_view(batches0).take(i as int)),
                0 <= base,
                ctx.log@.len() >= base,
                ctx.log@.take(base) == prefix0,
                flush_rel(st0, seq_view(batches0).take(i as int), vertices0, ctx.log@.skip(base)),
                ctx.screen_width == old(ctx).screen_width,
                ctx.screen_height == old(ctx).screen_height,
                ctx.pixel_projection == old(ctx).pixel_projection,
            decreases n - i,
        {
            let ghost st_i = flush_state_after(st0, seq_view(batches0).take(i as int));
            let ghost log_i = ctx.log@;
            let b = self.batches[i];
            proof {
                assert(seq_view(batches0)[i as int] == b@);
                assert(0 <= seq_view(batches0)[i as int].start <= seq_view(batches0)[i as int].end);
                assert(seq_view(batches0)[i as int].end <= vertices0.len());
                assert(seq_view(batches0)[i as int].end - seq_view(batches0)[i as int].start
                    <= MAX_BATCH_VERTICES);
            }
            match b.key.texture {
                Option::Some(id) => {
                    if last_tex_id != id {
                        last_tex_id = id;
                        ctx.emit(Command::BindTexture { texture: id });
                    }
                    // 0 refers to the texture unit, not the texture id
                    self.pipeline.set_texture(Option::Some(0));
                },
                Option::None => {
                    self.pipeline.set_texture(Option::None);
                },
            }
            self.pipeline.set_blend_mode(b.key.blend);
            let ghost p2 = self.pipeline;
            let ghost log_b = ctx.log@;
            proof {
                assert(p2 == flush_pipe_for_key(st_i.pipeline, b.key));
                assert(p2.program == st_i.pipeline.program);
                assert(p2.transform.name == st_i.pipeline.transform.name);
                assert(p2.texture.name == st_i.pipeline.texture.name);
                assert(p2.use_texture.name == st_i.pipeline.use_texture.name);
                assert(crate::graphics::primitives::pipeline_complete(&p2));
                assert(crate::graphics::primitives::apply_ok(p2));
            }
            let applied = self.pipeline.apply(ctx);
            match applied {
                Ok(()) => {},
                Err(_) => {
                    proof {
                        assert(false);
                    }
                    return vstd::pervasive::unreached();
                },
            }
            let ghost log_a = ctx.log@;
            let slice = copy_range(&self.vertices, b.start, b.end);
            let uploaded = Buffer::data_vertices(
                ctx,
                BufferTarget::Vertex,
                &slice,
                crate::commands::BufferUsage::StaticDraw,
            );
            match uploaded {
                Ok(()) => {},
                Err(_) => {
                    proof {
                        assert(false);
                    }
                    return vstd::pervasive::unreached();
                },
            }
            let ghost log_u = ctx.log@;
            let count = b.end - b.start;
            ctx.emit(
                Command::DrawArrays {
                    mode: crate::commands::PrimitiveMode::Triangles,
                    first: 0,
                    count: count as i32,
                },
            );
            proof {
                assert(log_b =~= log_i + step_bind_cmds(st_i.last_tex, b.key));
                lemma_flush_step_log(
                    st0,
                    seq_view(batches0),
                    vertices0,
                    i as int,
                    st_i,
                    b@,
                    base,
                    log_i,
                    log_i + step_bind_cmds(st_i.last_tex, b.key),
                    log_a,
                    log_u,
                    ctx.log@,
                    p2,
                );
                assert(ctx.log@.take(base) == prefix0) by {
                    assert(log_i.take(base) == prefix0);
                }
                assert((FlushState {
                    pipeline: self.pipeline,
                    blend: ctx.blend_mode,
                    last_tex: last_tex_id,
                }) == flush_step(st_i, b@.key));
                assert(crate::graphics::primitives::pipeline_complete(&self.pipeline));
            }
            i = i + 1;
        }
        proof {
            assert(seq_view(batches0).take(n as int) =~= seq_view(batches0));
        }
        let ghost log_end = ctx.log@;
        VertexArray::unbind(ctx);
        Program::unbind(ctx);
        crate::graphics::context::Texture::unbind(ctx);

        self.vertices.clear();
        self.batches.clear();
        proof {
            assert(seq_view(self.batches@) =~= Seq::<BatchS>::empty());
            let total = ctx.log@.len() as int;
            let pre_len = old(ctx).log@.len() as int;
            assert(ctx.log@ =~= log_end + seq![
                Command::BindVertexArray { array: 0 },
                Command::UseProgram { program: 0 },
                Command::BindTexture { texture: 0 },
            ]);
            assert(log_end.take(base) == prefix0);
            assert(ctx.log@.take(base) =~= prefix0);
            assert(ctx.log@.take(pre_len) =~= old(ctx).log@);
            assert(prefix0.subrange(pre_len, pre_len + 3) =~= seq![
                Command::ActiveTexture { unit: 0 },
                Command::BindVertexArray { array: old(self).vao.id },
                Command::BindBuffer { target: BufferTarget::Vertex, buffer: old(self).vbo.id },
            ]);
            assert forall|j: int| 0 <= j < 3 implies #[trigger] ctx.log@[pre_len + j] == prefix0[pre_len
                + j] by {
                assert(ctx.log@.take(base)[pre_len + j] == ctx.log@[pre_len + j]);
            }
            assert(ctx.log@.subrange(pre_len, pre_len + 3) =~= seq![
                Command::ActiveTexture { unit: 0 },
                Command::BindVertexArray { array: old(self).vao.id },
                Command::BindBuffer { target: BufferTarget::Vertex, buffer: old(self).vbo.id },
            ]);
            assert(ctx.log@.subrange(total - 3, total) =~= seq![
                Command::BindVertexArray { array: 0 },
                Command::UseProgram { program: 0 },
                Command::BindTexture { texture: 0 },
            ]);
            assert(ctx.log@.subrange(pre_len + 3, total - 3) =~= log_end.skip(base));
        }
        Ok(())
    }
}

/// Copies the vertex slice `[a, b)` out of `v`.
fn copy_range(v: &Vec<BasicVertex2D>, a: usize, b: usize) -> (r: Vec<BasicVertex2D>)
    requires
        a <= b <= v@.len(),
    ensures
        r@ == v@.subrange(a as int, b as int),
{
    let mut out: Vec<BasicVertex2D> = Vec::new();
    let mut i: usize = a;
    while i < b
        invariant
            a <= i <= b <= v@.len(),
            out@ == v@.subrange(a as int, i as int),
        decreases b - i,
    {
        out.push(v[i]);
        proof {
            assert(out@ =~= v@.subrange(a as int, i + 1 as int));
        }
        i = i + 1;
    }
    out
}

/// Rotates a relative corner and moves it to `position`.
fn corner_vertex(position: Vec2, rotation: &crate::graphics::transform::Mat3, rel: Vec2) -> (r:
    Vec2)
    requires
        crate::graphics::transform::mat3_bounded(rotation@, 0x2_0000),
        rotation@.tx == 0,
        rotation@.ty == 0,
        vec2_bounded(rel@, 0x10_0000_0000),
        vec2_bounded(position@, 0x8_0000_0000),
    ensures
        ({
            let rotated = crate::graphics::transform::mat_apply_spec(rotation@, rel@);
            r@ == (Vec2Spec { x: position@.x + rotated.x, y: position@.y + rotated.y })
        }),
{
    proof {
        lemma_fx_mul_bound(rotation@.xx, rel@.x, 0x2_0000, 0x10_0000_0000);
        lemma_fx_mul_bound(rotation@.xy, rel@.y, 0x2_0000, 0x10_0000_0000);
        lemma_fx_mul_bound(rotation@.yx, rel@.x, 0x2_0000, 0x10_0000_0000);
        lemma_fx_mul_bound(rotation@.yy, rel@.y, 0x2_0000, 0x10_0000_0000);
    }
    let rx = fx_mul(rotation.xx, rel.x) + fx_mul(rotation.xy, rel.y);
    let ry = fx_mul(rotation.yx, rel.x) + fx_mul(rotation.yy, rel.y);
    Vec2 { x: position.x + rx, y: position.y + ry }
}

} // verus!
