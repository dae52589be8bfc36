//! The records that extraction hands to the batching stage.

use crate::font::FontHandle;
use crate::primitive::Color;
use crate::scalar::{Scalar, Vec2};
use vstd::prelude::*;

verus! {

/// What a quad draws.
#[derive(Clone, Copy, Debug, PartialEq, Eq, Hash)]
pub enum UIQuadType {
    Quad,
    Text,
    Image,
}

/// A color as the renderer takes it: red, green, blue and alpha in sRGB.
#[derive(Clone, Copy, Debug, PartialEq, Eq, Hash)]
pub enum RenderColor {
    Rgba { red: Scalar, green: Scalar, blue: Scalar, alpha: Scalar },
}

/// A screen-space rectangle by its two corners.
#[derive(Clone, Copy, Debug, PartialEq, Eq, Hash)]
pub struct QuadRect {
    pub min: Vec2,
    pub max: Vec2,
}

/// Names an image in the asset store.
#[derive(Clone, Copy, Debug, PartialEq, Eq, Hash)]
pub struct ImageHandle {
    pub id: u64,
}

/// One drawable rectangle, as the batching stage consumes it.
///
/// The record is shared by every kind of quad; the fields that a kind does
/// not use hold their defaults.
#[derive(Clone, Copy, Debug, PartialEq, Eq, Hash)]
pub struct ExtractedQuad {
    pub rect: QuadRect,
    pub color: RenderColor,
    pub vertex_index: usize,
    pub char_id: u32,
    pub z_index: Scalar,
    pub font_handle: Option<FontHandle>,
    pub quad_type: UIQuadType,
    pub type_index: u32,
    pub border_radius: (Scalar, Scalar, Scalar, Scalar),
    pub image: Option<ImageHandle>,
    pub uv_max: Option<Vec2>,
    pub uv_min: Option<Vec2>,
}

/// An extracted quad, wrapped as the batching stage spawns it.
#[derive(Clone, Copy, Debug, PartialEq, Eq, Hash)]
pub struct ExtractQuadBundle {
    pub extracted_quad: ExtractedQuad,
}

/// The renderer's form of `color`: the four components, unchanged.
pub open spec fn render_color(color: Color) -> RenderColor {
    RenderColor::Rgba { red: color.r, green: color.g, blue: color.b, alpha: color.a }
}

/// Converts a color of the UI into the renderer's representation.
pub fn to_render_color(color: &Color) -> (r: RenderColor)
    ensures
        r == render_color(*color),
{
    RenderColor::Rgba { red: color.r, green: color.g, blue: color.b, alpha: color.a }
}

} // verus!
