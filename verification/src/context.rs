//! The context: the collection of per-window engine state handed to
//! every call into the library.

use vstd::prelude::*;

use crate::commands::Command;
use crate::graphics::context::{ctx_same_state, pixel_projection_spec, GraphicsContext};
use crate::graphics::transform::mat3_bounded;

verus! {

/// A collection of the engine's per-window state. The windowing
/// collaborator owns the window and the driver handle; this value models
/// everything the rendering core reads and writes.
#[derive(Debug)]
pub struct Context {
    pub graphics: GraphicsContext,
}

impl Context {
    /// A fresh context for a screen of the given pixel size.
    pub fn new(screen_width: u32, screen_height: u32) -> (ctx: Context)
        requires
            1 <= screen_width,
            1 <= screen_height,
        ensures
            ctx.graphics.screen_width == screen_width,
            ctx.graphics.screen_height == screen_height,
            ctx.graphics.pixel_projection@ == pixel_projection_spec(
                screen_width as int,
                screen_height as int,
            ),
            mat3_bounded(ctx.graphics.pixel_projection@, 0x4_0000),
            ctx.graphics.blend_mode is None,
            ctx.graphics.log@ == Seq::<Command>::empty(),
    {
        Context { graphics: GraphicsContext::new(screen_width, screen_height) }
    }

    /// Hands the accumulated driver commands to the executor, leaving
    /// the log empty.
    pub fn take_commands(&mut self) -> (cmds: Vec<Command>)
        ensures
            cmds@ == old(self).graphics.log@,
            final(self).graphics.log@ == Seq::<Command>::empty(),
            ctx_same_state(old(self).graphics, final(self).graphics),
    {
        self.graphics.take_commands()
    }
}

} // verus!
