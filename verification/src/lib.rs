//! Text-to-quad extraction for a retained-mode UI renderer.
//!
//! A laid-out text primitive becomes one quad per visible glyph. The font of
//! the primitive is found in the registry and in the store of loaded fonts,
//! the layout engine places the characters, and each placed character is
//! turned into the record that the batching stage consumes.
//!
//! Numbers that the renderer handles as IEEE-754 singles are held by their
//! bit patterns, and sums and products are computed on those patterns, so
//! that extraction gives the same bits wherever it runs.

pub mod extract;
pub mod font;
pub mod layout;
pub mod primitive;
pub mod quad;
pub mod scalar;

pub use extract::{
    all_glyphs_known, extract_quads, extract_texts, resolve_font, try_extract_quads,
    try_extract_texts,
};
pub use font::{FontAssets, FontHandle, FontMapping};
pub use layout::{
    layout_request, move_by, Alignment, CharacterLayout, CoordinateSystem, LayoutRequest,
    LINE_HEIGHT_FACTOR,
};
pub use primitive::{Color, Rect, RenderPrimitive, TextParts};
pub use quad::{
    to_render_color, ExtractQuadBundle, ExtractedQuad, ImageHandle, QuadRect, RenderColor,
    UIQuadType,
};
pub use scalar::{Scalar, Vec2};
