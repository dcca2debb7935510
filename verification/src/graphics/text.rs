//! Text rendering: a dynamic glyph atlas and the rasterizer that emits
//! textured quads for cached glyphs.
//!
//! Glyph outlines and metrics come from a font collaborator outside the
//! library; the atlas only packs rasterized bitmaps into one cache
//! texture and remembers where each glyph lives.

use vstd::prelude::*;

use crate::commands::Command;
use crate::fixed::{fx_div, fx_div_int};
use crate::graphics::batch::{
    push_spec, quad_corner_spec, quad_stream, quad_uv_spec, seq_view, BatchKey, BatchRender,
    BatchS, Quad,
};
use crate::graphics::blend::{BlendFunc, BlendMode, BlendParam};
use crate::graphics::color::Color;
use crate::graphics::context::{ctx_same_state, GraphicsContext, Texture};
use crate::graphics::error::GraphicsError;
use crate::graphics::primitives::BasicVertex2D;
use crate::graphics::rect::Rect;
use crate::graphics::texture::{Texture2D, TextureView2D};
use crate::graphics::transform::{Vec2, Vec2Spec};

verus! {

/// Largest atlas side length, in pixels.
pub const ATLAS_DIM_MAX: u32 = 0x8_0000;

/// Identifies one glyph of one font.
#[derive(Debug, Clone, Copy, PartialEq, Eq, Hash, Structural)]
pub struct GlyphKey {
    pub font_id: u64,
    pub glyph_id: u32,
}

/// A rectangle in atlas pixel space.
#[derive(Debug, Clone, Copy, PartialEq, Eq, Hash, Structural)]
pub struct AtlasRect {
    pub x: u32,
    pub y: u32,
    pub width: u32,
    pub height: u32,
}

/// A glyph waiting to be rasterized, with its pixel dimensions.
#[derive(Debug, Clone, Copy, PartialEq, Eq, Hash, Structural)]
pub struct QueuedGlyph {
    pub key: GlyphKey,
    pub width: u32,
    pub height: u32,
}

/// A rasterized glyph: one alpha byte per pixel, row-major.
#[derive(Debug)]
pub struct GlyphBitmap {
    pub key: GlyphKey,
    pub width: u32,
    pub height: u32,
    pub alpha: Vec<u8>,
}

/// Whether some entry carries `key`.
pub open spec fn has_key(entries: Seq<(GlyphKey, AtlasRect)>, key: GlyphKey) -> bool {
    exists|i: int| 0 <= i < entries.len() && (#[trigger] entries[i]).0 == key
}

/// The rectangle recorded for `key`, if any.
pub open spec fn find_key(entries: Seq<(GlyphKey, AtlasRect)>, key: GlyphKey) -> Option<AtlasRect>
    decreases entries.len(),
{
    if entries.len() == 0 {
        Option::None
    } else if entries[0].0 == key {
        Option::Some(entries[0].1)
    } else {
        find_key(entries.drop_first(), key)
    }
}

/// Whether some queued glyph carries `key`.
pub open spec fn queued_has(queued: Seq<QueuedGlyph>, key: GlyphKey) -> bool {
    exists|i: int| 0 <= i < queued.len() && (#[trigger] queued[i]).key == key
}

/// One shelf-packing step: place a `w` by `h` rectangle at the cursor if
/// the current row has room, else at the start of the next row, else
/// report exhaustion. Returns the corner and the new cursor state.
pub open spec fn place_spec(
    width: int,
    height: int,
    next_x: int,
    next_y: int,
    row_height: int,
    w: int,
    h: int,
) -> Option<(int, int, int, int, int)> {
    if next_x + w <= width && next_y + h <= height {
        Option::Some(
            (
                next_x,
                next_y,
                next_x + w,
                next_y,
                if h > row_height {
                    h
                } else {
                    row_height
                },
            ),
        )
    } else {
        let ny = next_y + row_height;
        if w <= width && ny + h <= height {
            Option::Some((0, ny, w, ny, h))
        } else {
            Option::None
        }
    }
}

/// The cursor state after packing the given glyphs in order, or `None`
/// once any of them does not fit.
pub open spec fn pack_state(
    width: int,
    height: int,
    st0: (int, int, int),
    items: Seq<QueuedGlyph>,
) -> Option<(int, int, int)>
    decreases items.len(),
{
    if items.len() == 0 {
        Option::Some(st0)
    } else {
        match pack_state(width, height, st0, items.drop_last()) {
            Option::None => Option::None,
            Option::Some(st) => match place_spec(
                width,
                height,
                st.0,
                st.1,
                st.2,
                items.last().width as int,
                items.last().height as int,
            ) {
                Option::None => Option::None,
                Option::Some(p) => Option::Some((p.2, p.3, p.4)),
            },
        }
    }
}

/// The rectangle assigned to item `i` of a successful packing.
pub open spec fn pack_rect(
    width: int,
    height: int,
    st0: (int, int, int),
    items: Seq<QueuedGlyph>,
    i: int,
) -> AtlasRect {
    let st = pack_state(width, height, st0, items.take(i)).unwrap();
    let p = place_spec(
        width,
        height,
        st.0,
        st.1,
        st.2,
        items[i].width as int,
        items[i].height as int,
    ).unwrap();
    AtlasRect { x: p.0 as u32, y: p.1 as u32, width: items[i].width, height: items[i].height }
}

/// Once packing has failed for a prefix, it fails for every extension.
proof fn lemma_pack_none_extends(
    width: int,
    height: int,
    st0: (int, int, int),
    items: Seq<QueuedGlyph>,
    i: int,
)
    requires
        0 <= i <= items.len(),
        pack_state(width, height, st0, items.take(i)) is None,
    ensures
        pack_state(width, height, st0, items) is None,
    decreases items.len() - i,
{
    if i < items.len() {
        assert(items.take(i + 1).drop_last() =~= items.take(i));
        lemma_pack_none_extends(width, height, st0, items, i + 1);
    } else {
        assert(items.take(i) =~= items);
    }
}

/// Whether `c` uploads exactly the white-plus-alpha expansion of
/// `alpha` into `rect`.
pub open spec fn tex_upload_cmd_ok(c: Command, rect: AtlasRect, alpha: Seq<u8>) -> bool {
    c matches Command::TexSubImage2D { x, y, width, height, data } && x == rect.x && y == rect.y
        && width == rect.width && height == rect.height && data@.len() == 4 * alpha.len() && (
    forall|k: int| 0 <= k < data@.len() ==> #[trigger] data@[k] == expanded_byte(alpha, k))
}

/// The geometric shelf invariant of the recorded entries with respect to
/// the cursor: closed rows lie fully above the cursor row, the current
/// row lies left of the cursor, rows stack without overlap, and keys are
/// unique.
pub open spec fn entries_wf(
    entries: Seq<(GlyphKey, AtlasRect)>,
    width: int,
    height: int,
    next_x: int,
    next_y: int,
    row_height: int,
) -> bool {
    &&& forall|i: int|
        0 <= i < entries.len() ==> {
            let r = (#[trigger] entries[i]).1;
            &&& 1 <= r.width
            &&& 1 <= r.height
            &&& r.x + r.width <= width
            &&& r.y + r.height <= height
            &&& r.y <= next_y
            &&& (r.y < next_y ==> r.y + r.height <= next_y)
            &&& (r.y == next_y ==> r.x + r.width <= next_x && r.height <= row_height)
        }
    &&& forall|i: int, j: int|
        0 <= i < entries.len() && 0 <= j < entries.len() && i != j ==> (#[trigger] entries[i]).0
            != (#[trigger] entries[j]).0
    &&& forall|i: int, j: int|
        0 <= i < entries.len() && 0 <= j < entries.len() && (#[trigger] entries[i]).1.y < (
        #[trigger] entries[j]).1.y ==> entries[i].1.y + entries[i].1.height <= entries[j].1.y
    &&& forall|i: int, j: int|
        0 <= i < entries.len() && 0 <= j < entries.len() && i != j && (#[trigger] entries[i]).1.y
            == (#[trigger] entries[j]).1.y ==> (entries[i].1.x + entries[i].1.width
            <= entries[j].1.x || entries[j].1.x + entries[j].1.width <= entries[i].1.x)
}

/// Placing one rectangle keeps the shelf invariant and the cursor
/// bounds, and the new entry lands inside the atlas.
proof fn lemma_place_step(
    entries: Seq<(GlyphKey, AtlasRect)>,
    width: int,
    height: int,
    next_x: int,
    next_y: int,
    row_height: int,
    key: GlyphKey,
    w: int,
    h: int,
)
    requires
        entries_wf(entries, width, height, next_x, next_y, row_height),
        0 < width <= 0x8_0000,
        0 < height <= 0x8_0000,
        0 <= next_x <= width,
        0 <= next_y,
        0 <= row_height,
        next_y + row_height <= height,
        1 <= w,
        1 <= h,
        !has_key(entries, key),
        place_spec(width, height, next_x, next_y, row_height, w, h) is Some,
    ensures
        ({
            let p = place_spec(width, height, next_x, next_y, row_height, w, h).unwrap();
            let r = AtlasRect { x: p.0 as u32, y: p.1 as u32, width: w as u32, height: h as u32 };
            &&& 0 <= p.0 && p.0 + w <= width
            &&& 0 <= p.1 && p.1 + h <= height
            &&& 0 <= p.2 <= width
            &&& 0 <= p.3
            &&& 0 <= p.4
            &&& p.3 + p.4 <= height
            &&& entries_wf(entries.push((key, r)), width, height, p.2, p.3, p.4)
        }),
{
    let p = place_spec(width, height, next_x, next_y, row_height, w, h).unwrap();
    let r = AtlasRect { x: p.0 as u32, y: p.1 as u32, width: w as u32, height: h as u32 };
    let pushed = entries.push((key, r));
    let m = entries.len() as int;
    assert(entries_wf(entries, width, height, next_x, next_y, row_height));
    assert(r.x == p.0 && r.y == p.1 && r.width == w && r.height == h);
    assert forall|i: int| 0 <= i < pushed.len() implies {
        let q = (#[trigger] pushed[i]).1;
        &&& 1 <= q.width
        &&& 1 <= q.height
        &&& q.x + q.width <= width
        &&& q.y + q.height <= height
        &&& q.y <= p.3
        &&& (q.y < p.3 ==> q.y + q.height <= p.3)
        &&& (q.y == p.3 ==> q.x + q.width <= p.2 && q.height <= p.4)
    } by {
        if i < m {
            let q = entries[i].1;
            assert(pushed[i] == entries[i]);
            if q.y == next_y && p.3 == next_y + row_height && row_height > 0 {
                assert(q.y + q.height <= p.3);
            }
        }
    }
    assert forall|i: int, j: int|
        0 <= i < pushed.len() && 0 <= j < pushed.len() && i != j implies (#[trigger] pushed[i]).0
        != (#[trigger] pushed[j]).0 by {
        if i < m && j < m {
            assert(pushed[i] == entries[i] && pushed[j] == entries[j]);
        } else if i == m {
            assert(pushed[j] == entries[j]);
            assert(entries[j].0 != key);
        } else {
            assert(pushed[i] == entries[i]);
            assert(entries[i].0 != key);
        }
    }
    assert forall|i: int, j: int|
        0 <= i < pushed.len() && 0 <= j < pushed.len() && (#[trigger] pushed[i]).1.y < (
        #[trigger] pushed[j]).1.y implies pushed[i].1.y + pushed[i].1.height <= pushed[j].1.y by {
        if i < m && j < m {
            assert(pushed[i] == entries[i] && pushed[j] == entries[j]);
        } else if j == m && i < m {
            let q = entries[i].1;
            assert(pushed[i] == entries[i]);
            if q.y < next_y {
                assert(q.y + q.height <= next_y <= p.1);
            } else {
                assert(q.y == next_y && p.1 == next_y + row_height);
                assert(q.height <= row_height);
            }
        } else if i == m && j < m {
            assert(pushed[j] == entries[j]);
            assert(entries[j].1.y <= next_y <= p.1);
        }
    }
    assert forall|i: int, j: int|
        0 <= i < pushed.len() && 0 <= j < pushed.len() && i != j && (#[trigger] pushed[i]).1.y == (
        #[trigger] pushed[j]).1.y implies (pushed[i].1.x + pushed[i].1.width <= pushed[j].1.x
        || pushed[j].1.x + pushed[j].1.width <= pushed[i].1.x) by {
        if i < m && j < m {
            assert(pushed[i] == entries[i] && pushed[j] == entries[j]);
        } else {
            let o = if i == m {
                j
            } else {
                i
            };
            let q = entries[o].1;
            assert(pushed[o] == entries[o]);
            if q.y == p.1 {
                if p.1 == next_y && p.0 == next_x {
                    assert(q.x + q.width <= next_x);
                } else {
                    assert(p.1 == next_y + row_height);
                    if q.y == next_y {
                        assert(row_height == 0);
                        assert(q.height <= row_height);
                        assert(false);
                    } else {
                        assert(q.y < next_y ==> q.y + q.height <= next_y);
                        assert(false);
                    }
                }
            }
        }
    }
}

/// Every pixel of one glyph's alpha bitmap expanded to white RGBA.
pub open spec fn expanded_byte(alpha: Seq<u8>, j: int) -> int {
    if j % 4 == 3 {
        alpha[j / 4] as int
    } else {
        255
    }
}

/// Expands a single-channel alpha bitmap to RGBA: all-white color with
/// the alpha channel driving coverage, so the atlas can reuse the basic
/// color pipeline.
pub fn expand_alpha(alpha: &Vec<u8>) -> (r: Vec<u8>)
    ensures
        r@.len() == 4 * alpha@.len(),
        forall|j: int| 0 <= j < r@.len() ==> #[trigger] r@[j] == expanded_byte(alpha@, j),
{
    let mut out: Vec<u8> = Vec::new();
    let n = alpha.len();
    let mut i: usize = 0;
    while i < n
        invariant
            i <= n,
            n == alpha@.len(),
            out@.len() == 4 * i,
            forall|j: int| 0 <= j < out@.len() ==> #[trigger] out@[j] == expanded_byte(alpha@, j),
        decreases n - i,
    {
        proof {
            lemma_expand_indices(i as int);
        }
        out.push(255);
        out.push(255);
        out.push(255);
        out.push(alpha[i]);
        i = i + 1;
    }
    out
}

/// Index arithmetic for one expanded pixel.
proof fn lemma_expand_indices(p: int)
    requires
        0 <= p,
    ensures
        (p * 4) % 4 == 0 && (p * 4) / 4 == p,
        (p * 4 + 1) % 4 == 1 && (p * 4 + 1) / 4 == p,
        (p * 4 + 2) % 4 == 2 && (p * 4 + 2) / 4 == p,
        (p * 4 + 3) % 4 == 3 && (p * 4 + 3) / 4 == p,
{
    assert((p * 4) % 4 == 0 && (p * 4) / 4 == p && (p * 4 + 1) % 4 == 1 && (p * 4 + 1) / 4 == p && (
    p * 4 + 2) % 4 == 2 && (p * 4 + 2) / 4 == p && (p * 4 + 3) % 4 == 3 && (p * 4 + 3) / 4 == p)
        by (nonlinear_arith)
        requires
            0 <= p,
    ;
}

/// A dynamic glyph atlas: a fixed-size cache texture area, a shelf
/// packer, the resident glyphs, and the queue of glyphs awaiting the
/// next bulk rasterization pass. A resident glyph's rectangle stays
/// valid until the cache is rebuilt; exhaustion is a reported failure,
/// never silent corruption.
#[derive(Debug)]
pub struct GlyphAtlas {
    pub width: u32,
    pub height: u32,
    pub next_x: u32,
    pub next_y: u32,
    pub row_height: u32,
    pub entries: Vec<(GlyphKey, AtlasRect)>,
    pub queued: Vec<QueuedGlyph>,
}

impl GlyphAtlas {
    /// The shelf invariant, the cursor bounds, and the queue discipline:
    /// queued glyphs fit the atlas, are not yet resident, and are queued
    /// at most once.
    pub open spec fn wf(&self) -> bool {
        &&& 1 <= self.width <= ATLAS_DIM_MAX
        &&& 1 <= self.height <= ATLAS_DIM_MAX
        &&& self.next_x <= self.width
        &&& self.next_y + self.row_height <= self.height
        &&& entries_wf(
            self.entries@,
            self.width as int,
            self.height as int,
            self.next_x as int,
            self.next_y as int,
            self.row_height as int,
        )
        &&& forall|i: int|
            0 <= i < self.queued@.len() ==> {
                let q = #[trigger] self.queued@[i];
                &&& 1 <= q.width
                &&& 1 <= q.height
                &&& !has_key(self.entries@, q.key)
            }
        &&& forall|i: int, j: int|
            0 <= i < self.queued@.len() && 0 <= j < self.queued@.len() && i != j ==> (
            #[trigger] self.queued@[i]).key != (#[trigger] self.queued@[j]).key
    }

    /// An empty atlas of the given pixel size.
    pub fn new(width: u32, height: u32) -> (atlas: GlyphAtlas)
        requires
            1 <= width <= ATLAS_DIM_MAX,
            1 <= height <= ATLAS_DIM_MAX,
        ensures
            atlas.wf(),
            atlas.width == width,
            atlas.height == height,
            atlas.entries@.len() == 0,
            atlas.queued@.len() == 0,
    {
        GlyphAtlas {
            width,
            height,
            next_x: 0,
            next_y: 0,
            row_height: 0,
            entries: Vec::new(),
            queued: Vec::new(),
        }
    }

    /// Whether `key` is resident in the atlas.
    pub fn contains(&self, key: GlyphKey) -> (r: bool)
        ensures
            r == has_key(self.entries@, key),
    {
        let n = self.entries.len();
        let mut i: usize = 0;
        while i < n
            invariant
                i <= n,
                n == self.entries@.len(),
                forall|j: int| 0 <= j < i ==> (#[trigger] self.entries@[j]).0 != key,
            decreases n - i,
        {
            if self.entries[i].0 == key {
                return true;
            }
            i = i + 1;
        }
        false
    }

    /// Whether `key` is already queued.
    pub fn is_queued(&self, key: GlyphKey) -> (r: bool)
        ensures
            r == queued_has(self.queued@, key),
    {
        let n = self.queued.len();
        let mut i: usize = 0;
        while i < n
            invariant
                i <= n,
                n == self.queued@.len(),
                forall|j: int| 0 <= j < i ==> (#[trigger] self.queued@[j]).key != key,
            decreases n - i,
        {
            if self.queued[i].key == key {
                return true;
            }
            i = i + 1;
        }
        false
    }

    /// Requests that a glyph be present in the atlas: queueing a glyph
    /// that is already resident or already queued changes nothing, so
    /// one bulk pass rasterizes each requested glyph exactly once. A
    /// glyph too large for the atlas is queued all the same; the bulk
    /// pass then reports exhaustion instead of dropping it silently.
    pub fn queue_glyph(&mut self, key: GlyphKey, width: u32, height: u32)
        requires
            old(self).wf(),
            1 <= width,
            1 <= height,
        ensures
            final(self).wf(),
            has_key(old(self).entries@, key) || queued_has(old(self).queued@, key) ==> *final(self)
                == *old(self),
            !(has_key(old(self).entries@, key) || queued_has(old(self).queued@, key)) ==> {
                &&& final(self).queued@ == old(self).queued@.push(
                    QueuedGlyph { key, width, height },
                )
                &&& final(self).entries == old(self).entries
                &&& final(self).width == old(self).width
                &&& final(self).height == old(self).height
                &&& final(self).next_x == old(self).next_x
                &&& final(self).next_y == old(self).next_y
                &&& final(self).row_height == old(self).row_height
            },
    {
        if self.contains(key) {
            return ;
        }
        if self.is_queued(key) {
            return ;
        }
        self.queued.push(QueuedGlyph { key, width, height });
    }

    /// The glyphs awaiting the next bulk rasterization pass, in queue
    /// order: the caller rasterizes exactly these and hands the bitmaps
    /// to [`GlyphAtlas::cache_queued`].
    pub fn pending(&self) -> (q: &Vec<QueuedGlyph>)
        ensures
            q@ == self.queued@,
    {
        &self.queued
    }

    /// The atlas rectangle of a resident glyph. Residency is guaranteed
    /// only between queueing and the next cache rebuild, so callers
    /// queue and query within one pass.
    pub fn rect_for(&self, key: GlyphKey) -> (r: Option<AtlasRect>)
        ensures
            r == find_key(self.entries@, key),
            r is Some <==> has_key(self.entries@, key),
    {
        proof {
            lemma_find_key_iff(self.entries@, key);
            assert(self.entries@.skip(0) =~= self.entries@);
        }
        let n = self.entries.len();
        let mut i: usize = 0;
        while i < n
            invariant
                i <= n,
                n == self.entries@.len(),
                find_key(self.entries@.skip(i as int), key) == find_key(self.entries@, key),
                forall|j: int| 0 <= j < i ==> (#[trigger] self.entries@[j]).0 != key,
            decreases n - i,
        {
            proof {
                assert(self.entries@.skip(i as int)[0] == self.entries@[i as int]);
                assert(self.entries@.skip(i as int).drop_first() =~= self.entries@.skip(
                    i + 1 as int,
                ));
            }
            if self.entries[i].0 == key {
                return Option::Some(self.entries[i].1);
            }
            i = i + 1;
        }
        proof {
            assert(self.entries@.skip(n as int) =~= Seq::<(GlyphKey, AtlasRect)>::empty());
        }
        Option::None
    }

    /// Rasterizes the queued glyphs in bulk: packs each into a free
    /// rectangle and uploads its white-plus-alpha expansion into the
    /// bound cache texture. When the atlas cannot hold them all, fails
    /// with `InsufficientGlyphCache` and changes nothing. The caller
    /// supplies one bitmap per pending glyph, in queue order.
    pub fn cache_queued(&mut self, ctx: &mut GraphicsContext, bitmaps: &Vec<GlyphBitmap>) -> (r:
        Result<(), GraphicsError>)
        requires
            old(self).wf(),
            bitmaps@.len() == old(self).queued@.len(),
            forall|i: int|
                0 <= i < bitmaps@.len() ==> {
                    let bm = #[trigger] bitmaps@[i];
                    &&& bm.key == old(self).queued@[i].key
                    &&& bm.width == old(self).queued@[i].width
                    &&& bm.height == old(self).queued@[i].height
                    &&& bm.alpha@.len() == bm.width * bm.height
                },
        ensures
            cache_queued_post(*old(self), *old(ctx), *final(self), *final(ctx), bitmaps@, r),
    {
        let n = self.queued.len();
        // First pass: simulate the packing without touching any state,
        // so exhaustion aborts the draw and corrupts nothing.
        let mut sim_x = self.next_x;
        let mut sim_y = self.next_y;
        let mut sim_rh = self.row_height;
        proof {
            assert(self.queued@.take(0) =~= Seq::<QueuedGlyph>::empty());
        }
        let mut i: usize = 0;
        while i < n
            invariant
                i <= n,
                n == self.queued@.len(),
                self.wf(),
                pack_state(
                    self.width as int,
                    self.height as int,
                    (self.next_x as int, self.next_y as int, self.row_height as int),
                    self.queued@.take(i as int),
                ) == Option::Some((sim_x as int, sim_y as int, sim_rh as int)),
                sim_x <= self.width,
                sim_y + sim_rh <= self.height,
            decreases n - i,
        {
            let q = self.queued[i];
            proof {
                assert(self.queued@.take(i + 1 as int).drop_last() =~= self.queued@.take(i as int));
                assert(self.queued@.take(i + 1 as int).last() == self.queued@[i as int]);
            }
            if q.width <= self.width - sim_x && q.height <= self.height - sim_y {
                sim_rh = if q.height > sim_rh {
                    q.height
                } else {
                    sim_rh
                };
                sim_x = sim_x + q.width;
            } else {
                let ny = sim_y + sim_rh;
                if q.width <= self.width && q.height <= self.height - ny {
                    sim_x = q.width;
                    sim_y = ny;
                    sim_rh = q.height;
                } else {
                    proof {
                        assert(pack_state(
                            self.width as int,
                            self.height as int,
                            (self.next_x as int, self.next_y as int, self.row_height as int),
                            self.queued@.take(i + 1 as int),
                        ) is None);
                        lemma_pack_none_extends(
                            self.width as int,
                            self.height as int,
                            (self.next_x as int, self.next_y as int, self.row_height as int),
                            self.queued@,
                            i + 1,
                        );
                    }
                    return Err(GraphicsError::InsufficientGlyphCache);
                }
            }
            i = i + 1;
        }
        proof {
            assert(self.queued@.take(n as int) =~= self.queued@);
        }

        // Second pass: commit the placements, upload each glyph and
        // record its rectangle.
        let ghost entries0 = self.entries@;
        let ghost queued0 = self.queued@;
        let ghost st0 = (self.next_x as int, self.next_y as int, self.row_height as int);
        let ghost log0 = ctx.log@;
        let ghost width = self.width as int;
        let ghost height = self.height as int;
        let mut i: usize = 0;
        while i < n
            invariant
                i <= n,
                n == queued0.len(),
                self.queued@ == queued0,
                self.width == width,
                self.height == height,
                1 <= self.width <= ATLAS_DIM_MAX,
                1 <= self.height <= ATLAS_DIM_MAX,
                self.next_x <= self.width,
                self.next_y + self.row_height <= self.height,
                bitmaps@.len() == queued0.len(),
                forall|j: int|
                    0 <= j < bitmaps@.len() ==> {
                        let bm = #[trigger] bitmaps@[j];
                        &&& bm.key == queued0[j].key
                        &&& bm.width == queued0[j].width
                        &&& bm.height == queued0[j].height
                        &&& bm.alpha@.len() == bm.width * bm.height
                    },
                forall|j: int|
                    0 <= j < queued0.len() ==> {
                        let q = #[trigger] queued0[j];
                        &&& 1 <= q.width
                        &&& 1 <= q.height
                    },
                forall|j: int, k: int|
                    0 <= j < queued0.len() && 0 <= k < queued0.len() && j != k ==> (
                    #[trigger] queued0[j]).key != (#[trigger] queued0[k]).key,
                pack_state(width, height, st0, queued0) is Some,
                pack_state(width, height, st0, queued0.take(i as int)) == Option::Some(
                    (self.next_x as int, self.next_y as int, self.row_height as int),
                ),
                entries_wf(
                    self.entries@,
                    width,
                    height,
                    self.next_x as int,
                    self.next_y as int,
                    self.row_height as int,
                ),
                self.entries@.len() == entries0.len() + i,
                self.entries@.take(entries0.len() as int) == entries0,
                forall|j: int|
                    0 <= j < i ==> #[trigger] self.entries@[entries0.len() + j] == (
                    queued0[j].key,
                    pack_rect(width, height, st0, queued0, j),
                ),
                forall|j: int|
                    i <= j < queued0.len() ==> !has_key(
                        self.entries@,
                        (#[trigger] queued0[j]).key,
                    ),
                ctx.log@.len() == log0.len() + i,
                ctx.log@.take(log0.len() as int) == log0,
                forall|j: int|
                    0 <= j < i ==> tex_upload_cmd_ok(
                        #[trigger] ctx.log@[log0.len() + j],
                        pack_rect(width, height, st0, queued0, j),
                        bitmaps@[j].alpha@,
                    ),
                ctx.screen_width == old(ctx).screen_width,
                ctx.screen_height == old(ctx).screen_height,
                ctx.pixel_projection == old(ctx).pixel_projection,
                ctx.blend_mode == old(ctx).blend_mode,
            decreases n - i,
        {
            let q = self.queued[i];
            let ghost entries_pre = self.entries@;
            proof {
                assert(queued0.take(i + 1 as int).drop_last() =~= queued0.take(i as int));
                assert(queued0.take(i + 1 as int).last() == queued0[i as int]);
                lemma_pack_some_prefix(width, height, st0, queued0, i + 1);
                lemma_place_step(
                    self.entries@,
                    width,
                    height,
                    self.next_x as int,
                    self.next_y as int,
                    self.row_height as int,
                    q.key,
                    q.width as int,
                    q.height as int,
                );
            }
            let (x, y) = if q.width <= self.width - self.next_x && q.height <= self.height
                - self.next_y {
                let x = self.next_x;
                let y = self.next_y;
                self.row_height = if q.height > self.row_height {
                    q.height
                } else {
                    self.row_height
                };
                self.next_x = self.next_x + q.width;
                (x, y)
            } else {
                let ny = self.next_y + self.row_height;
                self.next_x = q.width;
                self.next_y = ny;
                self.row_height = q.height;
                (0, ny)
            };
            let rect = AtlasRect { x, y, width: q.width, height: q.height };
            let bm = &bitmaps[i];
            let data = expand_alpha(&bm.alpha);
            ctx.emit(
                Command::TexSubImage2D {
                    x: x as i32,
                    y: y as i32,
                    width: q.width as i32,
                    height: q.height as i32,
                    data,
                },
            );
            self.entries.push((q.key, rect));
            proof {
                assert(self.entries@.take(entries0.len() as int) =~= entries0);
                assert(ctx.log@.take(log0.len() as int) =~= log0);
                assert(self.entries@[entries0.len() + i] == (
                    queued0[i as int].key,
                    pack_rect(width, height, st0, queued0, i as int),
                ));
                assert forall|j: int|
                    i + 1 <= j < queued0.len() implies !has_key(
                    self.entries@,
                    (#[trigger] queued0[j]).key,
                ) by {
                    if has_key(self.entries@, queued0[j].key) {
                        let idx = choose|idx: int|
                            0 <= idx < self.entries@.len() && (#[trigger] self.entries@[idx]).0
                                == queued0[j].key;
                        if idx < entries_pre.len() {
                            assert(entries_pre[idx].0 == queued0[j].key);
                            assert(has_key(entries_pre, queued0[j].key));
                        }
                    }
                }
            }
            i = i + 1;
        }
        self.queued.clear();
        proof {
            assert(queued0.take(n as int) =~= queued0);
        }
        Ok(())
    }
}

/// The contract of the bulk rasterization pass: on exhaustion nothing
/// changes and the failure is reported; otherwise every queued glyph
/// becomes resident at its packed rectangle, its expanded bitmap is
/// uploaded, and the queue empties.
pub open spec fn cache_queued_post(
    pre: GlyphAtlas,
    pre_ctx: GraphicsContext,
    post: GlyphAtlas,
    post_ctx: GraphicsContext,
    bitmaps: Seq<GlyphBitmap>,
    r: Result<(), GraphicsError>,
) -> bool {
    let width = pre.width as int;
    let height = pre.height as int;
    let st0 = (pre.next_x as int, pre.next_y as int, pre.row_height as int);
    match pack_state(width, height, st0, pre.queued@) {
        Option::None => {
            &&& r == Err::<(), GraphicsError>(GraphicsError::InsufficientGlyphCache)
            &&& post == pre
            &&& post_ctx == pre_ctx
        },
        Option::Some(stf) => {
            &&& r == Ok::<(), GraphicsError>(())
            &&& post.wf()
            &&& post.width == pre.width
            &&& post.height == pre.height
            &&& post.next_x == stf.0
            &&& post.next_y == stf.1
            &&& post.row_height == stf.2
            &&& post.queued@.len() == 0
            &&& post.entries@.len() == pre.entries@.len() + pre.queued@.len()
            &&& post.entries@.take(pre.entries@.len() as int) == pre.entries@
            &&& forall|j: int|
                0 <= j < pre.queued@.len() ==> #[trigger] post.entries@[pre.entries@.len() + j]
                    == (pre.queued@[j].key, pack_rect(width, height, st0, pre.queued@, j))
            &&& post_ctx.log@.len() == pre_ctx.log@.len() + pre.queued@.len()
            &&& post_ctx.log@.take(pre_ctx.log@.len() as int) == pre_ctx.log@
            &&& forall|j: int|
                0 <= j < pre.queued@.len() ==> tex_upload_cmd_ok(
                    #[trigger] post_ctx.log@[pre_ctx.log@.len() + j],
                    pack_rect(width, height, st0, pre.queued@, j),
                    bitmaps[j].alpha@,
                )
            &&& ctx_same_state(pre_ctx, post_ctx)
        },
    }
}

/// A successful packing of a prefix: from a packable whole list, every
/// prefix packs.
proof fn lemma_pack_some_prefix(
    width: int,
    height: int,
    st0: (int, int, int),
    items: Seq<QueuedGlyph>,
    i: int,
)
    requires
        0 <= i <= items.len(),
        pack_state(width, height, st0, items) is Some,
    ensures
        pack_state(width, height, st0, items.take(i)) is Some,
    decreases items.len() - i,
{
    if i == items.len() {
        assert(items.take(i) =~= items);
    } else {
        lemma_pack_some_prefix(width, height, st0, items, i + 1);
        assert(items.take(i + 1).drop_last() =~= items.take(i));
    }
}

/// `find_key` answers exactly residency.
proof fn lemma_find_key_iff(entries: Seq<(GlyphKey, AtlasRect)>, key: GlyphKey)
    ensures
        find_key(entries, key) is Some <==> has_key(entries, key),
    decreases entries.len(),
{
    if entries.len() > 0 {
        lemma_find_key_iff(entries.drop_first(), key);
        if has_key(entries.drop_first(), key) {
            let i = choose|i: int|
                0 <= i < entries.drop_first().len() && (#[trigger] entries.drop_first()[i]).0
                    == key;
            assert(entries[i + 1].0 == key);
        }
        if entries[0].0 != key && has_key(entries, key) {
            let i = choose|i: int| 0 <= i < entries.len() && (#[trigger] entries[i]).0 == key;
            assert(entries.drop_first()[i - 1].0 == key);
        }
    }
}

/// A glyph laid out by the text collaborator: which glyph, its pixel
/// dimensions, where its quad goes, and its color.
#[derive(Debug, Clone, Copy, PartialEq, Eq, Structural)]
pub struct PositionedGlyph {
    pub key: GlyphKey,
    pub width: u32,
    pub height: u32,
    pub position: Vec2,
    pub color: Color,
}

/// The queue contents after requesting a run of glyphs: each glyph with
/// a visible bitmap that is neither resident nor queued joins the queue
/// once. Glyphs without pixels (whitespace) are skipped; glyphs larger
/// than the atlas are queued and fail the bulk pass loudly.
pub open spec fn queue_seq(
    entries: Seq<(GlyphKey, AtlasRect)>,
    queued: Seq<QueuedGlyph>,
    glyphs: Seq<PositionedGlyph>,
) -> Seq<QueuedGlyph>
    decreases glyphs.len(),
{
    if glyphs.len() == 0 {
        queued
    } else {
        let q = queue_seq(entries, queued, glyphs.drop_last());
        let g = glyphs.last();
        if 1 <= g.width && 1 <= g.height && !has_key(entries, g.key) && !queued_has(q, g.key) {
            q.push(QueuedGlyph { key: g.key, width: g.width, height: g.height })
        } else {
            q
        }
    }
}

/// A normalized texture coordinate of an atlas pixel column or row.
pub open spec fn glyph_uv(v: int, dim: int) -> int {
    fx_div_int(v * 65536, dim * 65536)
}

/// A pixel coordinate inside the atlas maps into the unit interval.
proof fn lemma_uv_bound(x: int, dim: int)
    requires
        0 <= x <= dim,
        1 <= dim,
    ensures
        0 <= glyph_uv(x, dim) <= 65536,
{
    let a = x * 65536;
    let b = dim * 65536;
    assert(0 <= a * 65536 <= b * 65536) by (nonlinear_arith)
        requires
            0 <= x <= dim,
            a == x * 65536,
            b == dim * 65536,
    ;
    vstd::arithmetic::div_mod::lemma_div_is_ordered(a * 65536, b * 65536, b);
    vstd::arithmetic::div_mod::lemma_div_pos_is_pos(a * 65536, b);
    assert((b * 65536) / b == 65536) by (nonlinear_arith)
        requires
            1 <= b,
    ;
}

/// The UV rectangle of an atlas rectangle.
pub open spec fn glyph_uv_tl(rect: AtlasRect, width: int, height: int) -> Vec2Spec {
    Vec2Spec { x: glyph_uv(rect.x as int, width), y: glyph_uv(rect.y as int, height) }
}

/// The UV corner one past the rectangle.
pub open spec fn glyph_uv_br(rect: AtlasRect, width: int, height: int) -> Vec2Spec {
    Vec2Spec {
        x: glyph_uv(rect.x + rect.width, width),
        y: glyph_uv(rect.y + rect.height, height),
    }
}

/// Corner `i` of the quad emitted for one resident glyph: the glyph's
/// rectangle at its position, untinted by rotation, with the atlas UV
/// rectangle and the glyph's color.
pub open spec fn glyph_vertex(
    g: PositionedGlyph,
    rect: AtlasRect,
    width: int,
    height: int,
    i: int,
) -> BasicVertex2D {
    let pos = quad_corner_spec(
        g.position@,
        Vec2Spec { x: rect.width * 65536, y: rect.height * 65536 },
        Vec2Spec { x: 0, y: 0 },
        65536,
        0,
        i,
    );
    let uv = quad_uv_spec(glyph_uv_tl(rect, width, height), glyph_uv_br(rect, width, height), i);
    BasicVertex2D {
        position: Vec2 { x: pos.x as i64, y: pos.y as i64 },
        tex_coord: Vec2 { x: uv.x as i64, y: uv.y as i64 },
        color: g.color,
    }
}

/// The six vertices emitted for one resident glyph, in quad order.
pub open spec fn glyph_stream(
    g: PositionedGlyph,
    rect: AtlasRect,
    width: int,
    height: int,
) -> Seq<BasicVertex2D> {
    seq![
        glyph_vertex(g, rect, width, height, 0),
        glyph_vertex(g, rect, width, height, 2),
        glyph_vertex(g, rect, width, height, 1),
        glyph_vertex(g, rect, width, height, 0),
        glyph_vertex(g, rect, width, height, 3),
        glyph_vertex(g, rect, width, height, 2),
    ]
}

/// The batching key of glyph quads: the atlas texture with alpha
/// blending.
pub open spec fn glyph_batch_key(tex_id: u32) -> BatchKey {
    BatchKey {
        texture: Option::Some(tex_id),
        blend: Option::Some(
            BlendMode {
                func_rgb: BlendFunc::Add,
                func_alpha: BlendFunc::Add,
                src_rgb: BlendParam::SrcAlpha,
                src_alpha: BlendParam::One,
                dst_rgb: BlendParam::OneMinusSrcAlpha,
                dst_alpha: BlendParam::Zero,
            },
        ),
    }
}

/// The renderer contents after emitting quads for a run of glyphs:
/// every glyph resident in the atlas contributes six vertices under the
/// atlas texture's key; the others are skipped.
pub open spec fn text_fold(
    entries: Seq<(GlyphKey, AtlasRect)>,
    width: int,
    height: int,
    tex_id: u32,
    vertices: Seq<BasicVertex2D>,
    batches: Seq<BatchS>,
    glyphs: Seq<PositionedGlyph>,
) -> (Seq<BasicVertex2D>, Seq<BatchS>)
    decreases glyphs.len(),
{
    if glyphs.len() == 0 {
        (vertices, batches)
    } else {
        let acc = text_fold(
            entries,
            width,
            height,
            tex_id,
            vertices,
            batches,
            glyphs.drop_last(),
        );
        let g = glyphs.last();
        match find_key(entries, g.key) {
            Option::None => acc,
            Option::Some(rect) => (
                acc.0 + glyph_stream(g, rect, width, height),
                push_spec(acc.1, glyph_batch_key(tex_id), 6),
            ),
        }
    }
}

/// The text rasterizer: a batch renderer for the emitted quads, the
/// cache texture, the glyph atlas over it, and the next free font
/// identifier.
#[derive(Debug)]
pub struct Rasterizer {
    pub renderer: BatchRender,
    pub cache_texture: Texture2D,
    pub cache: GlyphAtlas,
    pub font_id_next: u64,
}

impl Rasterizer {
    /// The renderer and atlas invariants, with the atlas sized to the
    /// cache texture.
    pub open spec fn wf(&self) -> bool {
        &&& self.renderer.wf()
        &&& self.cache.wf()
        &&& self.cache.width == self.cache_texture.spec_width()
        &&& self.cache.height == self.cache_texture.spec_height()
    }

    /// Assembles a rasterizer around a batch renderer and a cache
    /// texture.
    pub fn new(renderer: BatchRender, cache_texture: Texture2D) -> (r: Rasterizer)
        requires
            renderer.wf(),
            1 <= cache_texture.spec_width() <= ATLAS_DIM_MAX,
            1 <= cache_texture.spec_height() <= ATLAS_DIM_MAX,
        ensures
            r.wf(),
            r.renderer == renderer,
            r.cache_texture.spec_id() == cache_texture.spec_id(),
            r.cache_texture.spec_width() == cache_texture.spec_width(),
            r.cache_texture.spec_height() == cache_texture.spec_height(),
            r.cache.entries@.len() == 0,
            r.cache.queued@.len() == 0,
            r.font_id_next == 0,
    {
        let width = cache_texture.width();
        let height = cache_texture.height();
        Rasterizer {
            renderer,
            cache_texture,
            cache: GlyphAtlas::new(width, height),
            font_id_next: 0,
        }
    }

    /// Assigns the next locally-unique font identifier. Parsing the font
    /// data itself is the collaborator's job; a failed parse never
    /// reaches this call.
    pub fn register_font(&mut self) -> (id: u64)
        requires
            old(self).font_id_next < 0xFFFF_FFFF_FFFF_FFFF,
        ensures
            id == old(self).font_id_next,
            final(self).font_id_next == old(self).font_id_next + 1,
            final(self).renderer == old(self).renderer,
            final(self).cache == old(self).cache,
            final(self).cache_texture == old(self).cache_texture,
    {
        let id = self.font_id_next;
        self.font_id_next = self.font_id_next + 1;
        id
    }

    /// Requests that every glyph of a laid-out run be present in the
    /// atlas; each distinct new glyph with a visible bitmap is queued
    /// exactly once, oversized ones included.
    pub fn queue_glyphs(&mut self, glyphs: &Vec<PositionedGlyph>)
        requires
            old(self).wf(),
        ensures
            final(self).wf(),
            final(self).cache.queued@ == queue_seq(
                old(self).cache.entries@,
                old(self).cache.queued@,
                glyphs@,
            ),
            final(self).cache.entries == old(self).cache.entries,
            final(self).cache.width == old(self).cache.width,
            final(self).cache.height == old(self).cache.height,
            final(self).cache.next_x == old(self).cache.next_x,
            final(self).cache.next_y == old(self).cache.next_y,
            final(self).cache.row_height == old(self).cache.row_height,
            final(self).renderer == old(self).renderer,
            final(self).cache_texture == old(self).cache_texture,
            final(self).font_id_next == old(self).font_id_next,
    {
        let n = glyphs.len();
        let mut i: usize = 0;
        proof {
            assert(glyphs@.take(0) =~= Seq::<PositionedGlyph>::empty());
        }
        while i < n
            invariant
                i <= n,
                n == glyphs@.len(),
                self.wf(),
                self.cache.queued@ == queue_seq(
                    old(self).cache.entries@,
                    old(self).cache.queued@,
                    glyphs@.take(i as int),
                ),
                self.cache.entries == old(self).cache.entries,
                self.cache.width == old(self).cache.width,
                self.cache.height == old(self).cache.height,
                self.cache.next_x == old(self).cache.next_x,
                self.cache.next_y == old(self).cache.next_y,
                self.cache.row_height == old(self).cache.row_height,
                self.renderer == old(self).renderer,
                self.cache_texture == old(self).cache_texture,
                self.font_id_next == old(self).font_id_next,
            decreases n - i,
        {
            let g = glyphs[i];
            proof {
                assert(glyphs@.take(i + 1 as int).drop_last() =~= glyphs@.take(i as int));
                assert(glyphs@.take(i + 1 as int).last() == glyphs@[i as int]);
            }
            if 1 <= g.width && 1 <= g.height {
                let already = self.cache.contains(g.key) || self.cache.is_queued(g.key);
                if !already {
                    self.cache.queue_glyph(g.key, g.width, g.height);
                }
            }
            i = i + 1;
        }
        proof {
            assert(glyphs@.take(n as int) =~= glyphs@);
        }
    }

    /// Binds the cache texture and rasterizes the queued glyphs in bulk.
    /// Atlas exhaustion aborts the draw with `InsufficientGlyphCache`
    /// after the bind, corrupting nothing.
    pub fn rasterize_queued(&mut self, ctx: &mut GraphicsContext, bitmaps: &Vec<GlyphBitmap>)
        -> (r: Result<(), GraphicsError>)
        requires
            old(self).wf(),
            bitmaps@.len() == old(self).cache.queued@.len(),
            forall|i: int|
                0 <= i < bitmaps@.len() ==> {
                    let bm = #[trigger] bitmaps@[i];
                    &&& bm.key == old(self).cache.queued@[i].key
                    &&& bm.width == old(self).cache.queued@[i].width
                    &&& bm.height == old(self).cache.queued@[i].height
                    &&& bm.alpha@.len() == bm.width * bm.height
                },
        ensures
            final(self).wf(),
            final(self).renderer == old(self).renderer,
            final(self).cache_texture == old(self).cache_texture,
            final(self).font_id_next == old(self).font_id_next,
            ({
                let pre = old(self).cache;
                let width = pre.width as int;
                let height = pre.height as int;
                let st0 = (pre.next_x as int, pre.next_y as int, pre.row_height as int);
                match pack_state(width, height, st0, pre.queued@) {
                    Option::None => {
                        &&& r == Err::<(), GraphicsError>(GraphicsError::InsufficientGlyphCache)
                        &&& final(self).cache == pre
                        &&& final(ctx).log@ == old(ctx).log@ + seq![
                            Command::BindTexture {
                                texture: old(self).cache_texture.spec_id(),
                            },
                        ]
                        &&& ctx_same_state(*old(ctx), *final(ctx))
                    },
                    Option::Some(stf) => {
                        &&& r == Ok::<(), GraphicsError>(())
                        &&& final(self).cache.queued@.len() == 0
                        &&& final(self).cache.next_x == stf.0
                        &&& final(self).cache.next_y == stf.1
                        &&& final(self).cache.row_height == stf.2
                        &&& final(self).cache.entries@.len() == pre.entries@.len()
                            + pre.queued@.len()
                        &&& final(self).cache.entries@.take(pre.entries@.len() as int)
                            == pre.entries@
                        &&& forall|j: int|
                            0 <= j < pre.queued@.len()
                                ==> #[trigger] final(self).cache.entries@[pre.entries@.len() + j]
                                == (pre.queued@[j].key, pack_rect(width, height, st0, pre.queued@, j))
                        &&& final(ctx).log@.len() == old(ctx).log@.len() + pre.queued@.len() + 2
                        &&& final(ctx).log@.take(old(ctx).log@.len() as int) == old(ctx).log@
                        &&& final(ctx).log@[old(ctx).log@.len() as int] == (Command::BindTexture {
                            texture: old(self).cache_texture.spec_id(),
                        })
                        &&& forall|j: int|
                            0 <= j < pre.queued@.len() ==> tex_upload_cmd_ok(
                                #[trigger] final(ctx).log@[old(ctx).log@.len() + 1 + j],
                                pack_rect(width, height, st0, pre.queued@, j),
                                bitmaps@[j].alpha@,
                            )
                        &&& final(ctx).log@.last() == (Command::BindTexture { texture: 0u32 })
                        &&& ctx_same_state(*old(ctx), *final(ctx))
                    },
                }
            }),
    {
        Texture::bind(ctx, self.cache_texture.raw());
        let ghost log_b = ctx.log@;
        let cached = self.cache.cache_queued(ctx, bitmaps);
        match cached {
            Err(e) => Err(e),
            Ok(()) => {
                let ghost log_c = ctx.log@;
                Texture::unbind(ctx);
                proof {
                    let n = old(ctx).log@.len() as int;
                    assert(log_c.take(log_b.len() as int) == log_b);
                    assert forall|j: int| 0 <= j < log_b.len() implies log_c[j] == log_b[j] by {
                        assert(log_c.take(log_b.len() as int)[j] == log_c[j]);
                    }
                    assert(ctx.log@.take(n) =~= old(ctx).log@);
                }
                Ok(())
            },
        }
    }

    /// Emits one textured quad into the batch renderer for every glyph
    /// of the run that is resident in the atlas; glyphs without a cached
    /// rectangle are skipped.
    pub fn draw_glyphs(&mut self, glyphs: &Vec<PositionedGlyph>)
        requires
            old(self).wf(),
            forall|i: int|
                0 <= i < glyphs@.len() ==> crate::graphics::transform::vec2_bounded(
                    (#[trigger] glyphs@[i]).position@,
                    0x8_0000_0000,
                ),
        ensures
            final(self).wf(),
            final(self).cache == old(self).cache,
            final(self).cache_texture == old(self).cache_texture,
            final(self).font_id_next == old(self).font_id_next,
            final(self).renderer.same_backend(&old(self).renderer),
            (final(self).renderer.vertices@, seq_view(final(self).renderer.batches@)) == text_fold(
                old(self).cache.entries@,
                old(self).cache.width as int,
                old(self).cache.height as int,
                old(self).cache_texture.spec_id(),
                old(self).renderer.vertices@,
                seq_view(old(self).renderer.batches@),
                glyphs@,
            ),
    {
        let n = glyphs.len();
        let mut i: usize = 0;
        proof {
            assert(glyphs@.take(0) =~= Seq::<PositionedGlyph>::empty());
        }
        while i < n
            invariant
                i <= n,
                n == glyphs@.len(),
                self.wf(),
                forall|j: int|
                    0 <= j < glyphs@.len() ==> crate::graphics::transform::vec2_bounded(
                        (#[trigger] glyphs@[j]).position@,
                        0x8_0000_0000,
                    ),
                self.cache == old(self).cache,
                self.cache_texture == old(self).cache_texture,
                self.font_id_next == old(self).font_id_next,
                self.renderer.same_backend(&old(self).renderer),
                (self.renderer.vertices@, seq_view(self.renderer.batches@)) == text_fold(
                    old(self).cache.entries@,
                    old(self).cache.width as int,
                    old(self).cache.height as int,
                    old(self).cache_texture.spec_id(),
                    old(self).renderer.vertices@,
                    seq_view(old(self).renderer.batches@),
                    glyphs@.take(i as int),
                ),
            decreases n - i,
        {
            let g = glyphs[i];
            proof {
                assert(glyphs@.take(i + 1 as int).drop_last() =~= glyphs@.take(i as int));
                assert(glyphs@.take(i + 1 as int).last() == glyphs@[i as int]);
            }
            let found = self.cache.rect_for(g.key);
            match found {
                Option::None => {},
                Option::Some(rect) => {
                    proof {
                        lemma_find_key_in_bounds(self.cache.entries@, g.key);
                        let idx = choose|idx: int|
                            0 <= idx < self.cache.entries@.len() && #[trigger] self.cache.entries@[idx]
                                == (g.key, rect);
                        assert(self.cache.entries@[idx].1 == rect);
                        lemma_uv_bound(rect.x as int, self.cache.width as int);
                        lemma_uv_bound(rect.y as int, self.cache.height as int);
                        lemma_uv_bound(rect.x + rect.width, self.cache.width as int);
                        lemma_uv_bound(rect.y + rect.height, self.cache.height as int);
                    }
                    let width_fx = (self.cache.width as i64) * 65536;
                    let height_fx = (self.cache.height as i64) * 65536;
                    let uv_tl = Vec2 {
                        x: fx_div((rect.x as i64) * 65536, width_fx),
                        y: fx_div((rect.y as i64) * 65536, height_fx),
                    };
                    let uv_br = Vec2 {
                        x: fx_div(((rect.x + rect.width) as i64) * 65536, width_fx),
                        y: fx_div(((rect.y + rect.height) as i64) * 65536, height_fx),
                    };
                    let view = TextureView2D::new(
                        self.cache_texture.clone(),
                        Rect { top_left: uv_tl, bottom_right: uv_br },
                    );
                    let quad = Quad::textured(view).with_position(g.position).with_size(
                        Vec2 {
                            x: (rect.width as i64) * 65536,
                            y: (rect.height as i64) * 65536,
                        },
                    ).with_tint(g.color).build();
                    proof {
                        let gs = glyphs@[i as int];
                        let aw = old(self).cache.width as int;
                        let ah = old(self).cache.height as int;
                        assert forall|k: int| 0 <= k < 4 implies quad.vertices[k] == glyph_vertex(
                            gs,
                            rect,
                            aw,
                            ah,
                            k,
                        ) by {
                            assert(quad.vertices[k].position@ == quad_corner_spec(
                                gs.position@,
                                Vec2Spec { x: rect.width * 65536, y: rect.height * 65536 },
                                Vec2Spec { x: 0, y: 0 },
                                65536,
                                0,
                                k,
                            ));
                            assert(quad.vertices[k].tex_coord@ == quad_uv_spec(
                                glyph_uv_tl(rect, aw, ah),
                                glyph_uv_br(rect, aw, ah),
                                k,
                            ));
                            assert(quad.vertices[k].color == gs.color);
                        }
                        assert(quad_stream(quad) =~= glyph_stream(gs, rect, aw, ah));
                    }
                    self.renderer.draw_quad(quad);
                },
            }
            i = i + 1;
        }
        proof {
            assert(glyphs@.take(n as int) =~= glyphs@);
        }
    }
}

/// Two distinct glyphs resident in a well-formed atlas never overlap:
/// their rectangles are disjoint horizontally or vertically, so packing
/// can fail loudly but never corrupts a cached glyph.
pub proof fn lemma_atlas_entries_disjoint(atlas: GlyphAtlas, i: int, j: int)
    requires
        atlas.wf(),
        0 <= i < atlas.entries@.len(),
        0 <= j < atlas.entries@.len(),
        i != j,
    ensures
        ({
            let a = atlas.entries@[i].1;
            let b = atlas.entries@[j].1;
            ||| a.x + a.width <= b.x
            ||| b.x + b.width <= a.x
            ||| a.y + a.height <= b.y
            ||| b.y + b.height <= a.y
        }),
{
    assert(entries_wf(
        atlas.entries@,
        atlas.width as int,
        atlas.height as int,
        atlas.next_x as int,
        atlas.next_y as int,
        atlas.row_height as int,
    ));
}

/// A found rectangle lies inside the atlas bounds recorded by the shelf
/// invariant.
proof fn lemma_find_key_in_bounds(entries: Seq<(GlyphKey, AtlasRect)>, key: GlyphKey)
    ensures
        find_key(entries, key) matches Option::Some(r) ==> exists|i: int|
            0 <= i < entries.len() && #[trigger] entries[i] == (key, r),
    decreases entries.len(),
{
    if entries.len() > 0 {
        lemma_find_key_in_bounds(entries.drop_first(), key);
        if entries[0].0 != key && find_key(entries.drop_first(), key) is Some {
            let r = find_key(entries.drop_first(), key).unwrap();
            let i = choose|i: int|
                0 <= i < entries.drop_first().len() && #[trigger] entries.drop_first()[i] == (
                    key,
                    r,
                );
            assert(entries[i + 1] == (key, r));
        }
    }
}

} // verus!
