//! Render primitives: the drawables that a layout pass hands to extraction.

use crate::scalar::Scalar;
use vstd::prelude::*;

verus! {

/// A color by its red, green, blue and alpha components.
#[derive(Clone, Copy, Debug, PartialEq, Eq, Hash)]
pub struct Color {
    pub r: Scalar,
    pub g: Scalar,
    pub b: Scalar,
    pub a: Scalar,
}

/// The box that the layout pass gave to a primitive, with its z-order.
#[derive(Clone, Copy, Debug, PartialEq, Eq, Hash)]
pub struct Rect {
    pub posx: Scalar,
    pub posy: Scalar,
    pub width: Scalar,
    pub height: Scalar,
    pub z_index: Scalar,
}

/// A laid-out drawable.
#[derive(Clone, Debug, PartialEq, Eq)]
pub enum RenderPrimitive {
    Empty,
    Clip { layout: Rect },
    Quad { layout: Rect, background_color: Color },
    Text { color: Color, layout: Rect, size: Scalar, content: String, font: u16 },
    Image { layout: Rect, handle: u16 },
}

/// What a text primitive holds.
#[derive(Clone, Copy, Debug, PartialEq, Eq)]
pub struct TextParts<'a> {
    pub color: &'a Color,
    pub layout: &'a Rect,
    pub size: Scalar,
    pub content: &'a String,
    pub font: u16,
}

impl RenderPrimitive {
    /// Whether this primitive is text, the only kind that text extraction accepts.
    pub fn is_text(&self) -> (r: bool)
        ensures
            r == (self is Text),
    {
        match self {
            RenderPrimitive::Text { .. } => true,
            _ => false,
        }
    }

    /// The parts of a text primitive. Any other primitive is not accepted.
    pub fn text_parts(&self) -> (r: TextParts<'_>)
        requires
            self is Text,
        ensures
            *r.color == self->color,
            *r.layout == self->Text_layout,
            r.size == self->size,
            *r.content == self->content,
            r.font == self->font,
    {
        match self {
            RenderPrimitive::Text { color, layout, size, content, font } => TextParts {
                color,
                layout,
                size: *size,
                content,
                font: *font,
            },
            _ => vstd::pervasive::unreached(),
        }
    }
}

} // verus!
