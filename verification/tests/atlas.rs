//! Glyph atlas and rasterizer tests.

use ds2d::commands::Command;
use ds2d::graphics::batch::BatchRender;
use ds2d::graphics::color::Color;
use ds2d::graphics::context::{
    Buffer, GraphicsContext, Program, Texture, UniformInfo, UniformKind, VertexArray,
};
use ds2d::graphics::error::GraphicsError;
use ds2d::graphics::primitives::{BasicPipeline2D, RenderState};
use ds2d::graphics::text::{
    GlyphAtlas, GlyphBitmap, GlyphKey, PositionedGlyph, Rasterizer,
};
use ds2d::graphics::texture::Texture2D;
use ds2d::graphics::transform::{Mat3, Vec2};

fn atlas_program() -> Program {
    let reflection = vec![
        (
            Some("Transform".to_string()),
            UniformInfo { kind: UniformKind::FloatMat3, size: 1, location: 0 },
        ),
        (
            Some("Texture0".to_string()),
            UniformInfo { kind: UniformKind::Sampler2D, size: 1, location: 1 },
        ),
        (
            Some("UseTexture0".to_string()),
            UniformInfo { kind: UniformKind::Bool, size: 1, location: 2 },
        ),
    ];
    Program::from_reflection(7, &reflection)
}

fn bitmap(key: GlyphKey, width: u32, height: u32, alpha: u8) -> GlyphBitmap {
    GlyphBitmap { key, width, height, alpha: vec![alpha; (width * height) as usize] }
}

#[test]
fn test_queue_same_glyph_once() {
    // Queueing the same glyph twice before one bulk pass rasterizes it
    // exactly once; a query in the same pass returns a valid, non-empty
    // rectangle.
    let mut ctx = GraphicsContext::new(800, 600);
    let mut atlas = GlyphAtlas::new(64, 64);
    let key = GlyphKey { font_id: 0, glyph_id: 5 };
    atlas.queue_glyph(key, 8, 8);
    atlas.queue_glyph(key, 8, 8);
    assert_eq!(atlas.pending().len(), 1);
    let bitmaps = vec![bitmap(key, 8, 8, 200)];
    atlas.cache_queued(&mut ctx, &bitmaps).unwrap();
    // Exactly one upload happened.
    assert_eq!(ctx.log.len(), 1);
    let rect = atlas.rect_for(key).unwrap();
    assert!(rect.width > 0 && rect.height > 0);
    assert_eq!((rect.width, rect.height), (8, 8));
    // Re-queueing a resident glyph is a no-op.
    atlas.queue_glyph(key, 8, 8);
    assert_eq!(atlas.pending().len(), 0);
}

#[test]
fn test_atlas_upload_expands_alpha() {
    let mut ctx = GraphicsContext::new(800, 600);
    let mut atlas = GlyphAtlas::new(64, 64);
    let key = GlyphKey { font_id: 0, glyph_id: 5 };
    atlas.queue_glyph(key, 2, 1);
    let bitmaps = vec![GlyphBitmap { key, width: 2, height: 1, alpha: vec![10, 20] }];
    atlas.cache_queued(&mut ctx, &bitmaps).unwrap();
    match ctx.log.last().unwrap() {
        Command::TexSubImage2D { x, y, width, height, data } => {
            assert_eq!((*x, *y, *width, *height), (0, 0, 2, 1));
            assert_eq!(data, &vec![255u8, 255, 255, 10, 255, 255, 255, 20]);
        }
        other => panic!("unexpected command {:?}", other),
    }
}

#[test]
fn test_atlas_exhausted_reports_and_preserves() {
    let mut ctx = GraphicsContext::new(800, 600);
    let mut atlas = GlyphAtlas::new(8, 8);
    let a = GlyphKey { font_id: 0, glyph_id: 1 };
    let b = GlyphKey { font_id: 0, glyph_id: 2 };
    atlas.queue_glyph(a, 5, 5);
    atlas.queue_glyph(b, 5, 5);
    let bitmaps = vec![bitmap(a, 5, 5, 1), bitmap(b, 5, 5, 2)];
    let r = atlas.cache_queued(&mut ctx, &bitmaps);
    assert_eq!(r.unwrap_err(), GraphicsError::InsufficientGlyphCache);
    // Nothing was uploaded and nothing became resident.
    assert_eq!(ctx.log.len(), 0);
    assert_eq!(atlas.entries.len(), 0);
    assert_eq!(atlas.pending().len(), 2);
}

#[test]
fn test_atlas_opens_new_row() {
    let mut ctx = GraphicsContext::new(800, 600);
    let mut atlas = GlyphAtlas::new(8, 12);
    let keys = [
        GlyphKey { font_id: 0, glyph_id: 1 },
        GlyphKey { font_id: 0, glyph_id: 2 },
        GlyphKey { font_id: 0, glyph_id: 3 },
    ];
    for k in keys.iter() {
        atlas.queue_glyph(*k, 4, 4);
    }
    let bitmaps: Vec<GlyphBitmap> = keys.iter().map(|k| bitmap(*k, 4, 4, 7)).collect();
    atlas.cache_queued(&mut ctx, &bitmaps).unwrap();
    let r0 = atlas.rect_for(keys[0]).unwrap();
    let r1 = atlas.rect_for(keys[1]).unwrap();
    let r2 = atlas.rect_for(keys[2]).unwrap();
    assert_eq!((r0.x, r0.y), (0, 0));
    assert_eq!((r1.x, r1.y), (4, 0));
    assert_eq!((r2.x, r2.y), (0, 4));
}

#[test]
fn test_rasterizer_font_ids_increment() {
    let mut ctx = GraphicsContext::new(800, 600);
    let pipeline = BasicPipeline2D::from_program(atlas_program());
    let renderer = BatchRender::new(&mut ctx, pipeline, Buffer::from_raw(11), VertexArray::from_raw(12));
    let cache_texture =
        Texture2D::solid(&mut ctx, Texture::from_raw(30), 64, 64, Color::black()).unwrap();
    let mut rasterizer = Rasterizer::new(renderer, cache_texture);
    assert_eq!(rasterizer.register_font(), 0);
    assert_eq!(rasterizer.register_font(), 1);
    assert_eq!(rasterizer.register_font(), 2);
}

#[test]
fn test_rasterizer_glyph_flow() {
    // Queue, rasterize in bulk, emit quads, flush.
    let mut ctx = GraphicsContext::new(800, 600);
    let pipeline = BasicPipeline2D::from_program(atlas_program());
    let renderer = BatchRender::new(&mut ctx, pipeline, Buffer::from_raw(11), VertexArray::from_raw(12));
    let cache_texture =
        Texture2D::solid(&mut ctx, Texture::from_raw(30), 64, 64, Color::black()).unwrap();
    let mut rasterizer = Rasterizer::new(renderer, cache_texture);

    let key = GlyphKey { font_id: 0, glyph_id: 5 };
    let glyphs = vec![
        PositionedGlyph {
            key,
            width: 8,
            height: 8,
            position: Vec2 { x: 4 * 65536, y: 9 * 65536 },
            color: Color::white(),
        },
        // An unknown glyph with no queued bitmap is skipped at draw time.
        PositionedGlyph {
            key: GlyphKey { font_id: 0, glyph_id: 6 },
            width: 0,
            height: 0,
            position: Vec2 { x: 0, y: 0 },
            color: Color::white(),
        },
    ];
    rasterizer.queue_glyphs(&glyphs);
    assert_eq!(rasterizer.cache.pending().len(), 1);
    let bitmaps = vec![bitmap(key, 8, 8, 128)];
    rasterizer.rasterize_queued(&mut ctx, &bitmaps).unwrap();
    assert_eq!(rasterizer.cache.pending().len(), 0);

    rasterizer.draw_glyphs(&glyphs);
    assert_eq!(rasterizer.renderer.vertices.len(), 6);
    assert_eq!(rasterizer.renderer.batches.len(), 1);
    // The glyph quad starts at the glyph's position.
    assert_eq!(
        rasterizer.renderer.vertices[0].position,
        Vec2 { x: 4 * 65536, y: 9 * 65536 }
    );

    rasterizer
        .renderer
        .draw(&mut ctx, RenderState { transform: Mat3::identity() })
        .unwrap();
    assert_eq!(rasterizer.renderer.vertices.len(), 0);
}

#[test]
fn test_oversized_glyph_reports_exhaustion() {
    // A glyph larger than the whole atlas is still queued; the bulk
    // pass then reports exhaustion instead of dropping it silently.
    let mut ctx = GraphicsContext::new(800, 600);
    let pipeline = BasicPipeline2D::from_program(atlas_program());
    let renderer =
        BatchRender::new(&mut ctx, pipeline, Buffer::from_raw(11), VertexArray::from_raw(12));
    let cache_texture =
        Texture2D::solid(&mut ctx, Texture::from_raw(30), 8, 8, Color::black()).unwrap();
    let mut rasterizer = Rasterizer::new(renderer, cache_texture);
    let glyphs = vec![PositionedGlyph {
        key: GlyphKey { font_id: 0, glyph_id: 9 },
        width: 10,
        height: 10,
        position: Vec2 { x: 0, y: 0 },
        color: Color::white(),
    }];
    rasterizer.queue_glyphs(&glyphs);
    assert_eq!(rasterizer.cache.pending().len(), 1);
    let bitmaps = vec![bitmap(GlyphKey { font_id: 0, glyph_id: 9 }, 10, 10, 50)];
    let r = rasterizer.rasterize_queued(&mut ctx, &bitmaps);
    assert_eq!(r.unwrap_err(), GraphicsError::InsufficientGlyphCache);
    // The failed pass corrupted nothing: the glyph stays pending and
    // nothing became resident.
    assert_eq!(rasterizer.cache.pending().len(), 1);
    assert_eq!(rasterizer.cache.entries.len(), 0);
}
