//! The rendering subsystem: drawable primitives, batching, pipelines,
//! textures and text, all expressed over the command log of a context.

pub mod batch;
pub mod draw;
pub mod blend;
pub mod color;
pub mod context;
pub mod error;
pub mod mesh;
pub mod text;
pub mod texture;
pub mod primitives;
pub mod rect;
pub mod sprite;
pub mod transform;

pub use batch::{BatchRender, Quad, QuadBuilder};
pub use blend::BlendMode;
pub use color::Color;
pub use context::BackendError;
pub use draw::{clear, draw, screen_size, set_blend_mode, Drawable};
pub use error::GraphicsError;
pub use mesh::Mesh;
pub use primitives::RenderState;
pub use rect::Rect;
pub use sprite::Sprite;
pub use texture::{Texture2D, TextureView2D};
