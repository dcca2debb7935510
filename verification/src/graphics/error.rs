//! The error type of the rendering subsystem.

use vstd::prelude::*;

use crate::graphics::context::BackendError;

verus! {

/// An error from the rendering subsystem.
#[derive(Debug, Clone, PartialEq, Eq)]
pub enum GraphicsError {
    /// A typed error from the backend layer.
    Backend(BackendError),
    /// Font data could not be parsed.
    InvalidFont,
    /// The glyph cache texture is too small for the queued glyphs.
    InsufficientGlyphCache,
}

impl From<BackendError> for GraphicsError {
    fn from(err: BackendError) -> (r: GraphicsError) {
        GraphicsError::Backend(err)
    }
}

impl vstd::std_specs::convert::FromSpecImpl<BackendError> for GraphicsError {
    open spec fn obeys_from_spec() -> bool {
        true
    }

    open spec fn from_spec(err: BackendError) -> GraphicsError {
        GraphicsError::Backend(err)
    }
}

} // verus!
