//! The boundary to the glyph layout engine: what the extraction stage asks of
//! it, and what it gives back.

use crate::primitive::RenderPrimitive;
use crate::scalar::{Scalar, Vec2};
use vstd::prelude::*;

verus! {

/// The direction of the vertical axis in which positions are given.
#[derive(Clone, Copy, Debug, PartialEq, Eq, Hash)]
pub enum CoordinateSystem {
    PositiveYUp,
    PositiveYDown,
}

/// Where the lines of a text start within its box.
#[derive(Clone, Copy, Debug, PartialEq, Eq, Hash)]
pub enum Alignment {
    Start,
    Middle,
    End,
}

/// Bit pattern of the single nearest to six fifths, the ratio of line height
/// to font size.
pub const LINE_HEIGHT_FACTOR: u32 = 0x3F99_999A;

/// What the layout engine is asked to lay out.
#[derive(Clone, Copy, Debug, PartialEq, Eq)]
pub struct LayoutRequest<'a> {
    pub coordinate_system: CoordinateSystem,
    pub alignment: Alignment,
    pub origin: Vec2,
    pub max_size: Vec2,
    pub content: &'a str,
    pub line_height: Scalar,
    pub font_size: Scalar,
}

/// A layout request as a mathematical value.
pub struct LayoutRequestView {
    pub coordinate_system: CoordinateSystem,
    pub alignment: Alignment,
    pub origin: Vec2,
    pub max_size: Vec2,
    pub content: Seq<char>,
    pub line_height: Scalar,
    pub font_size: Scalar,
}

impl<'a> View for LayoutRequest<'a> {
    type V = LayoutRequestView;

    open spec fn view(&self) -> LayoutRequestView {
        LayoutRequestView {
            coordinate_system: self.coordinate_system,
            alignment: self.alignment,
            origin: self.origin,
            max_size: self.max_size,
            content: self.content@,
            line_height: self.line_height,
            font_size: self.font_size,
        }
    }
}

/// One laid-out character: which one, where, and how large.
#[derive(Clone, Copy, Debug, PartialEq, Eq, Hash)]
pub struct CharacterLayout {
    pub content: char,
    pub position: Vec2,
    pub size: Vec2,
}

/// The request that text extraction makes for a text primitive: y grows
/// downward, lines start at the left, the origin lies one font size below the
/// top left corner of the box, the box bounds the text, and a line is six
/// fifths of the font size high.
pub open spec fn requested_layout(render_primitive: RenderPrimitive) -> LayoutRequestView
    recommends
        render_primitive is Text,
{
    let layout = render_primitive->Text_layout;
    let size = render_primitive->size;
    LayoutRequestView {
        coordinate_system: CoordinateSystem::PositiveYDown,
        alignment: Alignment::Start,
        origin: Vec2 { x: layout.posx, y: layout.posy.spec_plus(size) },
        max_size: Vec2 { x: layout.width, y: layout.height },
        content: render_primitive->content@,
        line_height: size.spec_times(Scalar { bits: LINE_HEIGHT_FACTOR }),
        font_size: size,
    }
}

/// Builds the layout request for a text primitive.
pub fn layout_request<'a>(render_primitive: &'a RenderPrimitive) -> (r: LayoutRequest<'a>)
    requires
        render_primitive is Text,
    ensures
        r@ == requested_layout(*render_primitive),
{
    let text = render_primitive.text_parts();
    LayoutRequest {
        coordinate_system: CoordinateSystem::PositiveYDown,
        alignment: Alignment::Start,
        origin: Vec2::new(text.layout.posx, text.layout.posy.plus(text.size)),
        max_size: Vec2::new(text.layout.width, text.layout.height),
        content: text.content.as_str(),
        line_height: text.size.times(Scalar::from_bits(LINE_HEIGHT_FACTOR)),
        font_size: text.size,
    }
}

/// The characters of `placed`, each moved by `origin`: what an engine that
/// places characters relative to the start of the text gives once its result
/// is taken to the origin of a request.
pub open spec fn moved_by(placed: Seq<CharacterLayout>, origin: Vec2) -> Seq<CharacterLayout> {
    Seq::new(
        placed.len(),
        |i: int|
            CharacterLayout {
                content: placed[i].content,
                position: origin.spec_plus(placed[i].position),
                size: placed[i].size,
            },
    )
}

/// Moves every character of `placed` by `origin`, keeping order and sizes.
pub fn move_by(placed: &Vec<CharacterLayout>, origin: Vec2) -> (r: Vec<CharacterLayout>)
    ensures
        r@ == moved_by(placed@, origin),
{
    let mut moved: Vec<CharacterLayout> = Vec::new();
    let mut i: usize = 0;
    while i < placed.len()
        invariant
            i <= placed.len(),
            moved@ == moved_by(placed@.take(i as int), origin),
        decreases placed.len() - i,
    {
        let character = placed[i];
        moved.push(
            CharacterLayout {
                content: character.content,
                position: origin.plus(character.position),
                size: character.size,
            },
        );
        i += 1;
    }
    moved
}

} // verus!
