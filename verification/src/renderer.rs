//! Settings and cached results of the glyph renderer.
use vstd::prelude::*;

verus! {

/// How glyphs are rasterized.
#[derive(Default, Debug, Clone, Copy)]
pub struct TextConfig {
    pub hint: bool,
    pub subpixel: bool,
}

/// Where a rasterized glyph sits in the glyph atlas, and how it is placed.
#[derive(Copy, Clone, Debug)]
pub struct RenderedGlyph {
    texture_index: usize,
    width: u32,
    height: u32,
    offset_x: i32,
    offset_y: i32,
    atlas_x: u32,
    atlas_y: u32,
    color_glyph: bool,
}

/// Context that a renderer hands to what it draws.
pub trait RendererContext {
}

/// A position in physical pixels, in whatever unit `P` the windowing system uses.
pub struct PhysicalPosition<P> {
    pub x: P,
    pub y: P,
}

} // verus!
