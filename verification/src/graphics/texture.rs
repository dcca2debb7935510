//! Shared 2D textures.

use vstd::prelude::*;

use crate::commands::Command;
use crate::graphics::color::{component_u8_spec, Color};
use crate::graphics::context::{
    ctx_logged, ctx_same_state, BackendError, GraphicsContext, Texture,
};
use crate::graphics::error::GraphicsError;
use crate::graphics::rect::Rect;
use crate::graphics::transform::Vec2;

verus! {

/// A 2D texture that can be cheaply shared between several sprites:
/// one driver texture with its dimensions, together with the pixels the
/// driver holds for it. Two values are equal when they name the same
/// driver texture, so equality is identity, not structure.
#[derive(Debug)]
pub struct Texture2D {
    raw: Texture,
    width: u32,
    height: u32,
    /// The RGBA pixels uploaded to the driver, row-major from the
    /// top-left corner.
    data: Vec<u8>,
}

/// The byte of `color`'s RGBA quantization selected by `k`.
pub open spec fn rgba_byte(color: Color, k: int) -> int {
    if k == 0 {
        component_u8_spec(color.r as int)
    } else if k == 1 {
        component_u8_spec(color.g as int)
    } else if k == 2 {
        component_u8_spec(color.b as int)
    } else {
        component_u8_spec(color.a as int)
    }
}

impl Texture2D {
    /// The pixel buffer matches the dimensions and fits the driver's
    /// signed 32-bit sample count.
    pub open spec fn wf(&self) -> bool {
        &&& self.spec_data().len() == self.spec_width() * self.spec_height() * 4
        &&& self.spec_width() * self.spec_height() * 4 <= 0x7FFF_FFFF
    }

    /// The driver texture identifier, for contracts.
    pub closed spec fn spec_id(&self) -> u32 {
        self.raw.spec_id()
    }

    /// The width in pixels, for contracts.
    pub closed spec fn spec_width(&self) -> u32 {
        self.width
    }

    /// The height in pixels, for contracts.
    pub closed spec fn spec_height(&self) -> u32 {
        self.height
    }

    /// The driver-side pixels, for contracts.
    pub closed spec fn spec_data(&self) -> Seq<u8> {
        self.data@
    }

    /// Wraps a driver texture and uploads `data` as its RGBA pixels:
    /// bind, upload, generate mipmaps, unbind. Oversized dimensions are
    /// rejected with `TooLarge` and a mismatched pixel buffer with
    /// `InvalidSize`, before or by the upload.
    pub fn from_rgba(
        ctx: &mut GraphicsContext,
        raw: Texture,
        width: u32,
        height: u32,
        data: Vec<u8>,
    ) -> (r: Result<Texture2D, GraphicsError>)
        ensures
            from_rgba_outcome(*old(ctx), *final(ctx), r, raw.spec_id(), width, height, data@),
    {
        if width >= 0x7FFF_FFFF || height >= 0x7FFF_FFFF {
            return Err(GraphicsError::Backend(BackendError::TooLarge));
        }
        Texture::bind(ctx, &raw);
        proof {
            assert(0 <= width as int * height as int) by (nonlinear_arith);
        }
        let upload = Texture::image2d_rgba(ctx, width as i32, height as i32, &data);
        match upload {
            Err(e) => Err(GraphicsError::Backend(e)),
            Ok(()) => {
                let ghost log_up = ctx.log@;
                Texture::generate_mipmap(ctx);
                Texture::unbind(ctx);
                proof {
                    let l0 = old(ctx).log@;
                    let lb = l0 + seq![Command::BindTexture { texture: raw.spec_id() }];
                    assert(log_up.drop_last() == lb);
                    assert(forall|i: int| 0 <= i < lb.len() ==> log_up[i] == log_up.drop_last()[i]);
                    assert(ctx.log@ =~= log_up + seq![
                        Command::GenerateMipmap,
                        Command::BindTexture { texture: 0u32 },
                    ]);
                    assert(ctx.log@.take(l0.len() as int) =~= l0);
                    assert(ctx.log@[l0.len() as int] == Command::BindTexture {
                        texture: raw.spec_id(),
                    });
                }
                Ok(Texture2D { raw, width, height, data })
            },
        }
    }

    /// Builds a solid-color texture: every pixel is the 8-bit
    /// quantization of `color`.
    pub fn solid(ctx: &mut GraphicsContext, raw: Texture, width: u32, height: u32, color: Color)
        -> (r: Result<Texture2D, GraphicsError>)
        requires
            width as int * height as int * 4 <= 0x7FFF_FFFF,
        ensures
            width >= 0x7FFF_FFFF || height >= 0x7FFF_FFFF ==> r == Err::<Texture2D, GraphicsError>(
                GraphicsError::Backend(BackendError::TooLarge),
            ) && *final(ctx) == *old(ctx),
            width < 0x7FFF_FFFF && height < 0x7FFF_FFFF ==> {
                &&& r matches Ok(t) && t.wf() && t.spec_id() == raw.spec_id() && t.spec_width()
                    == width && t.spec_height() == height && t.spec_data().len() == width as int
                    * height as int * 4 && (forall|j: int|
                    0 <= j < t.spec_data().len() ==> t.spec_data()[j] == rgba_byte(color, j % 4))
                &&& final(ctx).log@.len() == old(ctx).log@.len() + 4
                &&& final(ctx).log@.take(old(ctx).log@.len() as int) == old(ctx).log@
                &&& final(ctx).log@[old(ctx).log@.len() as int] == (Command::BindTexture {
                    texture: raw.spec_id(),
                })
                &&& (final(ctx).log@[old(ctx).log@.len() + 1int] matches Command::TexImage2D {
                    width: wi,
                    height: he,
                    data: d,
                } && wi == width as i32 && he == height as i32 && d@.len() == width as int
                    * height as int * 4 && (forall|j: int|
                    0 <= j < d@.len() ==> d@[j] == rgba_byte(color, j % 4)))
                &&& final(ctx).log@[old(ctx).log@.len() + 2int] == Command::GenerateMipmap
                &&& final(ctx).log@[old(ctx).log@.len() + 3int] == (Command::BindTexture {
                    texture: 0u32,
                })
                &&& ctx_same_state(*old(ctx), *final(ctx))
            },
    {
        let bytes = color.to_rgba_u8();
        let pixels: usize = (width as usize) * (height as usize);
        let mut data: Vec<u8> = Vec::new();
        let mut i: usize = 0;
        while i < pixels
            invariant
                i <= pixels,
                pixels == width as int * height as int,
                pixels * 4 <= 0x7FFF_FFFF,
                bytes[0] as int == rgba_byte(color, 0),
                bytes[1] as int == rgba_byte(color, 1),
                bytes[2] as int == rgba_byte(color, 2),
                bytes[3] as int == rgba_byte(color, 3),
                data@.len() == i * 4,
                forall|j: int| 0 <= j < data@.len() ==> data@[j] == rgba_byte(color, j % 4),
            decreases pixels - i,
        {
            proof {
                assert(i * 4 + 4 <= pixels * 4) by (nonlinear_arith)
                    requires
                        i < pixels,
                ;
                lemma_mod_four(i as int);
            }
            data.push(bytes[0]);
            data.push(bytes[1]);
            data.push(bytes[2]);
            data.push(bytes[3]);
            i = i + 1;
        }
        proof {
            assert(pixels * 4 == width as int * height as int * 4) by (nonlinear_arith)
                requires
                    pixels == width as int * height as int,
            ;
            assert(0 <= width as int * height as int) by (nonlinear_arith);
        }
        Texture2D::from_rgba(ctx, raw, width, height, data)
    }

    /// The width of the texture in pixels.
    pub fn width(&self) -> (w: u32)
        ensures
            w == self.spec_width(),
    {
        self.width
    }

    /// The height of the texture in pixels.
    pub fn height(&self) -> (h: u32)
        ensures
            h == self.spec_height(),
    {
        self.height
    }

    /// The underlying driver texture.
    pub fn raw(&self) -> (t: &Texture)
        ensures
            t.spec_id() == self.spec_id(),
    {
        &self.raw
    }

    /// Reads back the texel at `(x, y)` as RGBA bytes, exactly as it was
    /// uploaded to the driver.
    pub fn sample(&self, x: u32, y: u32) -> (px: [u8; 4])
        requires
            self.wf(),
            x < self.spec_width(),
            y < self.spec_height(),
        ensures
            forall|k: int|
                0 <= k < 4 ==> px[k] == self.spec_data()[(y as int * self.spec_width() as int
                    + x as int) * 4 + k],
    {
        proof {
            assert((y as int * self.spec_width() as int + x as int) * 4 + 4 <= self.spec_width()
                as int * self.spec_height() as int * 4) by (nonlinear_arith)
                requires
                    x < self.spec_width(),
                    y < self.spec_height(),
            ;
        }
        let idx: usize = ((y as usize) * (self.width as usize) + (x as usize)) * 4;
        [self.data[idx], self.data[idx + 1], self.data[idx + 2], self.data[idx + 3]]
    }
}

/// The contract of [`Texture2D::from_rgba`]: oversized dimensions give
/// `TooLarge` untouched, an oversized sample count gives `TooLarge`
/// after the bind, a mismatched buffer gives `InvalidSize` after the
/// bind, and otherwise the texture is assembled and uploaded with
/// exactly four commands.
pub open spec fn from_rgba_outcome(
    pre: GraphicsContext,
    post: GraphicsContext,
    r: Result<Texture2D, GraphicsError>,
    raw_id: u32,
    width: u32,
    height: u32,
    data: Seq<u8>,
) -> bool {
    let w = width as int;
    let h = height as int;
    let samples = w * h * 4;
    if width >= 0x7FFF_FFFF || height >= 0x7FFF_FFFF {
        r == Err::<Texture2D, GraphicsError>(GraphicsError::Backend(BackendError::TooLarge))
            && post == pre
    } else if !(w * h <= 0x7FFF_FFFF) || !(samples <= 0x7FFF_FFFF) {
        r == Err::<Texture2D, GraphicsError>(GraphicsError::Backend(BackendError::TooLarge))
            && ctx_logged(pre, post, seq![Command::BindTexture { texture: raw_id }])
    } else if samples != data.len() {
        r == Err::<Texture2D, GraphicsError>(GraphicsError::Backend(BackendError::InvalidSize))
            && ctx_logged(pre, post, seq![Command::BindTexture { texture: raw_id }])
    } else {
        &&& r matches Ok(t) && t.wf() && t.spec_id() == raw_id && t.spec_width() == width
            && t.spec_height() == height && t.spec_data() == data
        &&& post.log@.len() == pre.log@.len() + 4
        &&& post.log@.take(pre.log@.len() as int) == pre.log@
        &&& post.log@[pre.log@.len() as int] == Command::BindTexture { texture: raw_id }
        &&& (post.log@[pre.log@.len() + 1int] matches Command::TexImage2D {
            width: wi,
            height: he,
            data: d,
        } && wi == w && he == h && d@ == data)
        &&& post.log@[pre.log@.len() + 2int] == Command::GenerateMipmap
        &&& post.log@[pre.log@.len() + 3int] == Command::BindTexture { texture: 0 }
        &&& ctx_same_state(pre, post)
    }
}

/// `(4p + k) % 4 == k` for byte offsets inside one pixel.
proof fn lemma_mod_four(p: int)
    requires
        0 <= p,
    ensures
        (p * 4) % 4 == 0,
        (p * 4 + 1) % 4 == 1,
        (p * 4 + 2) % 4 == 2,
        (p * 4 + 3) % 4 == 3,
{
    assert((p * 4) % 4 == 0 && (p * 4 + 1) % 4 == 1 && (p * 4 + 2) % 4 == 2 && (p * 4 + 3) % 4
        == 3) by (nonlinear_arith)
        requires
            0 <= p,
    ;
}

impl Clone for Texture2D {
    /// Clones the shared handle: the copy names the same driver texture
    /// and carries the same dimensions and pixels.
    fn clone(&self) -> (r: Self)
        ensures
            r.spec_id() == self.spec_id(),
            r.spec_width() == self.spec_width(),
            r.spec_height() == self.spec_height(),
            r.spec_data() == self.spec_data(),
            r.wf() == self.wf(),
    {
        Texture2D {
            raw: Texture::from_raw(self.raw.id()),
            width: self.width,
            height: self.height,
            data: crate::graphics::context::clone_copy_vec(&self.data),
        }
    }
}

impl PartialEq for Texture2D {
    /// Identity equality: two textures are equal when they name the same
    /// driver texture.
    fn eq(&self, other: &Self) -> (r: bool)
        ensures
            r == (self.spec_id() == other.spec_id()),
    {
        self.raw.id() == other.raw.id()
    }
}

impl vstd::std_specs::cmp::PartialEqSpecImpl for Texture2D {
    open spec fn obeys_eq_spec() -> bool {
        true
    }

    open spec fn eq_spec(&self, other: &Texture2D) -> bool {
        self.spec_id() == other.spec_id()
    }
}

impl Eq for Texture2D {

}

/// A rectangular view into a shared texture, in normalized texture
/// coordinates.
#[derive(Debug)]
pub struct TextureView2D {
    pub texture: Texture2D,
    pub source: Rect,
}

impl TextureView2D {
    /// A view of `source` within `texture`.
    pub fn new(texture: Texture2D, source: Rect) -> (v: TextureView2D)
        ensures
            v.texture.spec_id() == texture.spec_id(),
            v.texture.spec_width() == texture.spec_width(),
            v.texture.spec_height() == texture.spec_height(),
            v.source == source,
    {
        TextureView2D { texture, source }
    }

    /// The size of the view in pixels: the texture dimensions scaled by
    /// the normalized size of the source rectangle.
    pub fn size(&self) -> (s: Vec2)
        requires
            self.texture.spec_width() <= 0x40_0000,
            self.texture.spec_height() <= 0x40_0000,
            crate::graphics::rect::rect_bounded(self.source@, 0x2_0000),
        ensures
            s@.x == crate::fixed::fx_mul_int(
                self.texture.spec_width() as int * 65536,
                self.source@.bottom_right.x - self.source@.top_left.x,
            ),
            s@.y == crate::fixed::fx_mul_int(
                self.texture.spec_height() as int * 65536,
                self.source@.bottom_right.y - self.source@.top_left.y,
            ),
    {
        proof {
            crate::fixed::lemma_fx_mul_bound(
                self.texture.spec_width() as int * 65536,
                self.source@.bottom_right.x - self.source@.top_left.x,
                0x4000_0000_0000,
                0x4_0000,
            );
            crate::fixed::lemma_fx_mul_bound(
                self.texture.spec_height() as int * 65536,
                self.source@.bottom_right.y - self.source@.top_left.y,
                0x4000_0000_0000,
                0x4_0000,
            );
        }
        let uv_size = self.source.size();
        Vec2 {
            x: crate::fixed::fx_mul((self.texture.width() as i64) * 65536, uv_size.x),
            y: crate::fixed::fx_mul((self.texture.height() as i64) * 65536, uv_size.y),
        }
    }
}

impl From<Texture2D> for TextureView2D {
    /// A view of the whole texture.
    fn from(texture: Texture2D) -> (v: TextureView2D) {
        TextureView2D { texture, source: Rect::unit_square() }
    }
}

impl vstd::std_specs::convert::FromSpecImpl<Texture2D> for TextureView2D {
    open spec fn obeys_from_spec() -> bool {
        true
    }

    open spec fn from_spec(texture: Texture2D) -> TextureView2D {
        TextureView2D {
            texture,
            source: Rect {
                top_left: Vec2 { x: 0, y: 0 },
                bottom_right: Vec2 { x: 65536, y: 65536 },
            },
        }
    }
}

} // verus!
