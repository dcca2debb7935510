//! The uniform draw entry point and the context-wide draw-state calls.

use vstd::prelude::*;

use crate::commands::Command;
use crate::context::Context;
use crate::graphics::blend::BlendMode;
use crate::graphics::color::Color;
use crate::graphics::context::blend_cmds;
use crate::graphics::error::GraphicsError;
use crate::graphics::primitives::RenderState;

verus! {

/// Implemented by every entity that can be drawn under an ambient
/// transform. `draw_requires` names what a drawable needs of itself and
/// of the render state, and `draw_ens` what drawing guarantees; each
/// implementation supplies both from its own exact contract, so the
/// guarantee reaches callers that draw through the trait.
pub trait Drawable {
    /// What this drawable needs before it can be drawn.
    spec fn draw_requires(&self, ctx: &Context, state: RenderState) -> bool;

    /// What drawing this entity guarantees, over its state before and
    /// after, the context before and after, the ambient render state and
    /// the result.
    spec fn draw_ens(
        &self,
        post: &Self,
        pre_ctx: &Context,
        post_ctx: &Context,
        state: RenderState,
        r: &Result<(), GraphicsError>,
    ) -> bool;

    /// Draws the entity under the given render state, appending the
    /// driver calls to the context's log.
    fn draw(&mut self, ctx: &mut Context, state: RenderState) -> (r: Result<(), GraphicsError>)
        requires
            old(self).draw_requires(&*old(ctx), state),
        ensures
            old(self).draw_ens(&*final(self), &*old(ctx), &*final(ctx), state, &r),
    ;
}

/// Draws one drawable under the pixel projection of the context's
/// screen, so that its coordinates are pixels: the drawable's own
/// guarantee holds with the projection as the ambient transform.
pub fn draw<T: Drawable>(ctx: &mut Context, drawable: &mut T) -> (r: Result<(), GraphicsError>)
    requires
        old(drawable).draw_requires(
            &*old(ctx),
            (RenderState { transform: old(ctx).graphics.pixel_projection }),
        ),
    ensures
        old(drawable).draw_ens(
            &*final(drawable),
            &*old(ctx),
            &*final(ctx),
            (RenderState { transform: old(ctx).graphics.pixel_projection }),
            &r,
        ),
{
    let initial_state = RenderState { transform: ctx.graphics.pixel_projection };
    drawable.draw(ctx, initial_state)
}

/// Sets the blend mode used for subsequent draw calls, through the
/// context's blend cache: a repeated mode issues no driver call.
pub fn set_blend_mode(ctx: &mut Context, blend: Option<BlendMode>)
    ensures
        final(ctx).graphics.blend_mode == blend,
        final(ctx).graphics.log@ == old(ctx).graphics.log@ + blend_cmds(
            old(ctx).graphics.blend_mode,
            blend,
        ),
        final(ctx).graphics.screen_width == old(ctx).graphics.screen_width,
        final(ctx).graphics.screen_height == old(ctx).graphics.screen_height,
        final(ctx).graphics.pixel_projection == old(ctx).graphics.pixel_projection,
{
    ctx.graphics.set_blend_mode(blend);
}

/// Clears the screen to the given color.
pub fn clear(ctx: &mut Context, color: Color)
    ensures
        final(ctx).graphics.log@ == old(ctx).graphics.log@ + seq![
            Command::ClearColor { color },
            Command::Clear,
        ],
        crate::graphics::context::ctx_same_state(old(ctx).graphics, final(ctx).graphics),
{
    ctx.graphics.emit(Command::ClearColor { color });
    ctx.graphics.emit(Command::Clear);
    proof {
        assert(final(ctx).graphics.log@ =~= old(ctx).graphics.log@ + seq![
            Command::ClearColor { color },
            Command::Clear,
        ]);
    }
}

/// The current screen size in pixels.
pub fn screen_size(ctx: &Context) -> (size: (u32, u32))
    ensures
        size.0 == ctx.graphics.screen_width,
        size.1 == ctx.graphics.screen_height,
{
    (ctx.graphics.screen_width, ctx.graphics.screen_height)
}

impl Drawable for crate::graphics::sprite::Sprite {
    open spec fn draw_requires(&self, ctx: &Context, state: RenderState) -> bool {
        self.wf() && crate::graphics::transform::mat3_bounded(state.transform@, 0x4_0000)
    }

    open spec fn draw_ens(
        &self,
        post: &Self,
        pre_ctx: &Context,
        post_ctx: &Context,
        state: RenderState,
        r: &Result<(), GraphicsError>,
    ) -> bool {
        crate::graphics::sprite::sprite_draw_post(
            *self,
            *post,
            pre_ctx.graphics,
            post_ctx.graphics,
            state,
            *r,
        )
    }

    fn draw(&mut self, ctx: &mut Context, state: RenderState) -> (r: Result<(), GraphicsError>) {
        crate::graphics::sprite::Sprite::draw(self, &mut ctx.graphics, state)
    }
}

impl Drawable for crate::graphics::mesh::Mesh {
    open spec fn draw_requires(&self, ctx: &Context, state: RenderState) -> bool {
        true
    }

    open spec fn draw_ens(
        &self,
        post: &Self,
        pre_ctx: &Context,
        post_ctx: &Context,
        state: RenderState,
        r: &Result<(), GraphicsError>,
    ) -> bool {
        crate::graphics::mesh::mesh_draw_post(
            *self,
            *post,
            pre_ctx.graphics,
            post_ctx.graphics,
            state,
            *r,
        )
    }

    fn draw(&mut self, ctx: &mut Context, state: RenderState) -> (r: Result<(), GraphicsError>) {
        crate::graphics::mesh::Mesh::draw(self, &mut ctx.graphics, state)
    }
}

impl Drawable for crate::graphics::batch::BatchRender {
    open spec fn draw_requires(&self, ctx: &Context, state: RenderState) -> bool {
        self.wf()
    }

    open spec fn draw_ens(
        &self,
        post: &Self,
        pre_ctx: &Context,
        post_ctx: &Context,
        state: RenderState,
        r: &Result<(), GraphicsError>,
    ) -> bool {
        crate::graphics::batch::batch_draw_post(
            *self,
            *post,
            pre_ctx.graphics,
            post_ctx.graphics,
            state,
            *r,
        )
    }

    fn draw(&mut self, ctx: &mut Context, state: RenderState) -> (r: Result<(), GraphicsError>) {
        crate::graphics::batch::BatchRender::draw(self, &mut ctx.graphics, state)
    }
}

} // verus!
