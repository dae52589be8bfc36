//! Text extraction: from a laid-out text primitive to one quad per glyph.

use crate::font::{char_id, glyph_ids, FontAssets, FontHandle, FontMapping};
use crate::layout::{layout_request, requested_layout, CharacterLayout, LayoutRequest};
use crate::primitive::{Color, RenderPrimitive};
use crate::quad::{
    render_color, to_render_color, ExtractQuadBundle, ExtractedQuad, QuadRect, UIQuadType,
};
use crate::scalar::Scalar;
use kayak_font::KayakFont;
use vstd::prelude::*;

verus! {

/// Whether the glyph set of `font` holds every character of `layouts`.
pub open spec fn glyphs_known(font: KayakFont, layouts: Seq<CharacterLayout>) -> bool {
    forall|i: int|
        0 <= i < layouts.len() ==> glyph_ids(font).contains_key(#[trigger] layouts[i].content)
}

/// The border radius of a quad with square corners: zero at each corner.
pub open spec fn no_border_radius() -> (Scalar, Scalar, Scalar, Scalar) {
    (Scalar::spec_zero(), Scalar::spec_zero(), Scalar::spec_zero(), Scalar::spec_zero())
}

/// The quad of one laid-out character: its rectangle reaches from the
/// character's position over its size, its glyph is the one that `font` has
/// for the character, and the fields that text does not use hold defaults.
pub open spec fn text_quad(
    glyph: CharacterLayout,
    font: KayakFont,
    font_handle: FontHandle,
    background_color: Color,
    z_index: Scalar,
) -> ExtractQuadBundle {
    ExtractQuadBundle {
        extracted_quad: ExtractedQuad {
            font_handle: Some(font_handle),
            rect: QuadRect { min: glyph.position, max: glyph.position.spec_plus(glyph.size) },
            color: render_color(background_color),
            vertex_index: 0,
            char_id: glyph_ids(font)[glyph.content],
            z_index,
            quad_type: UIQuadType::Text,
            type_index: 0,
            border_radius: no_border_radius(),
            image: None,
            uv_max: None,
            uv_min: None,
        },
    }
}

/// The quads of a laid-out text: one per character, in the order of `layouts`.
pub open spec fn text_quads(
    layouts: Seq<CharacterLayout>,
    font: KayakFont,
    font_handle: FontHandle,
    background_color: Color,
    z_index: Scalar,
) -> Seq<ExtractQuadBundle> {
    Seq::new(
        layouts.len(),
        |i: int| text_quad(layouts[i], font, font_handle, background_color, z_index),
    )
}

/// Tests whether `font` has a glyph for every character that was laid out.
pub fn all_glyphs_known(font: &KayakFont, chars_layouts: &Vec<CharacterLayout>) -> (r: bool)
    ensures
        r == glyphs_known(*font, chars_layouts@),
{
    let mut i: usize = 0;
    while i < chars_layouts.len()
        invariant
            i <= chars_layouts.len(),
            forall|j: int|
                0 <= j < i ==> glyph_ids(*font).contains_key(
                    #[trigger] chars_layouts@[j].content,
                ),
        decreases chars_layouts.len() - i,
    {
        if char_id(font, chars_layouts[i].content).is_none() {
            return false;
        }
        i += 1;
    }
    true
}

/// Turns the characters that the layout engine placed into quads.
///
/// The font must have a glyph for each of them: the engine lays out with the
/// same font, so a character without one breaks the agreement between the two.
pub fn extract_quads(
    chars_layouts: &Vec<CharacterLayout>,
    font: &KayakFont,
    font_handle: FontHandle,
    background_color: &Color,
    z_index: Scalar,
) -> (r: Vec<ExtractQuadBundle>)
    requires
        glyphs_known(*font, chars_layouts@),
    ensures
        r@ == text_quads(chars_layouts@, *font, font_handle, *background_color, z_index),
{
    let mut extracted_texts: Vec<ExtractQuadBundle> = Vec::new();
    let mut i: usize = 0;
    while i < chars_layouts.len()
        invariant
            i <= chars_layouts.len(),
            glyphs_known(*font, chars_layouts@),
            extracted_texts@.len() == i,
            forall|j: int| 0 <= j < i ==> extracted_texts@[j] == text_quad(
                chars_layouts@[j],
                *font,
                font_handle,
                *background_color,
                z_index,
            ),
        decreases chars_layouts.len() - i,
    {
        let char_layout = chars_layouts[i];
        let id = char_id(font, char_layout.content);
        extracted_texts.push(
            ExtractQuadBundle {
                extracted_quad: ExtractedQuad {
                    font_handle: Some(font_handle),
                    rect: QuadRect {
                        min: char_layout.position,
                        max: char_layout.position.plus(char_layout.size),
                    },
                    color: to_render_color(background_color),
                    vertex_index: 0,
                    char_id: id.unwrap(),
                    z_index,
                    quad_type: UIQuadType::Text,
                    type_index: 0,
                    border_radius: (
                        Scalar::zero(),
                        Scalar::zero(),
                        Scalar::zero(),
                        Scalar::zero(),
                    ),
                    image: None,
                    uv_max: None,
                    uv_min: None,
                },
            },
        );
        i += 1;
    }
    extracted_texts
}

/// As `extract_quads`, for any characters: `None` where the font lacks a
/// glyph for one of them.
pub fn try_extract_quads(
    chars_layouts: &Vec<CharacterLayout>,
    font: &KayakFont,
    font_handle: FontHandle,
    background_color: &Color,
    z_index: Scalar,
) -> (r: Option<Vec<ExtractQuadBundle>>)
    ensures
        glyphs_known(*font, chars_layouts@) ==> r is Some && r->0@ == text_quads(
            chars_layouts@,
            *font,
            font_handle,
            *background_color,
            z_index,
        ),
        !glyphs_known(*font, chars_layouts@) ==> r is None,
{
    if all_glyphs_known(font, chars_layouts) {
        Some(extract_quads(chars_layouts, font, font_handle, background_color, z_index))
    } else {
        None
    }
}

/// The handle under which the registry holds the font of a text primitive.
pub open spec fn registered_font(
    render_primitive: RenderPrimitive,
    font_mapping: FontMapping,
) -> Option<FontHandle>
    recommends
        render_primitive is Text,
{
    font_mapping.handle_of(render_primitive->font)
}

/// The loaded font of a text primitive whose font is registered, if the store
/// holds it.
pub open spec fn loaded_font(
    render_primitive: RenderPrimitive,
    fonts: FontAssets,
    font_mapping: FontMapping,
) -> Option<KayakFont>
    recommends
        render_primitive is Text,
        registered_font(render_primitive, font_mapping) is Some,
{
    fonts.loaded(registered_font(render_primitive, font_mapping)->0)
}

/// Finds the font of a text primitive: its handle in the registry, and under
/// that handle the loaded font. `None` while the font is not loaded.
///
/// The font reference of the primitive must have been registered.
pub fn resolve_font<'a>(
    render_primitive: &RenderPrimitive,
    fonts: &FontAssets<'a>,
    font_mapping: &FontMapping,
) -> (r: Option<(FontHandle, &'a KayakFont)>)
    requires
        render_primitive is Text,
        registered_font(*render_primitive, *font_mapping) is Some,
    ensures
        match r {
            Some((font_handle, font)) => {
                &&& registered_font(*render_primitive, *font_mapping) == Some(font_handle)
                &&& fonts.loaded(font_handle) == Some(*font)
            },
            None => loaded_font(*render_primitive, *fonts, *font_mapping) is None,
        },
{
    let font_handle = font_mapping.get_handle(render_primitive.text_parts().font).unwrap();
    match fonts.get(font_handle) {
        Some(font) => Some((font_handle, font)),
        None => None,
    }
}

/// Whether `layout_engine` may be called with the loaded font of a text
/// primitive and the request that extraction makes for that primitive.
pub open spec fn engine_accepts<L>(
    render_primitive: RenderPrimitive,
    fonts: FontAssets,
    font_mapping: FontMapping,
    layout_engine: L,
) -> bool where L: Fn(&KayakFont, &LayoutRequest) -> Vec<CharacterLayout> {
    forall|font: &KayakFont, request: &LayoutRequest|
        loaded_font(render_primitive, fonts, font_mapping) == Some(*font)
            && request@ == requested_layout(render_primitive)
            ==> #[trigger] layout_engine.requires((font, request))
}

/// Whether `layout_engine`, called as extraction calls it for a text
/// primitive, places only characters for which the font has a glyph.
pub open spec fn engine_keeps_to_glyphs<L>(
    render_primitive: RenderPrimitive,
    fonts: FontAssets,
    font_mapping: FontMapping,
    layout_engine: L,
) -> bool where L: Fn(&KayakFont, &LayoutRequest) -> Vec<CharacterLayout> {
    forall|font: &KayakFont, request: &LayoutRequest, layouts: Vec<CharacterLayout>|
        loaded_font(render_primitive, fonts, font_mapping) == Some(*font)
            && request@ == requested_layout(render_primitive)
            && #[trigger] layout_engine.ensures((font, request), layouts)
            ==> glyphs_known(*font, layouts@)
}

/// What text extraction gives for a text primitive whose font is registered,
/// with `layout_engine` as the layout engine.
///
/// While the font is not loaded there is nothing to draw. Once it is, the
/// engine is asked for the layout that `requested_layout` describes, and each
/// character that it placed becomes one quad, in the engine's order; `quads`
/// is `None` where the engine placed a character for which the font has no
/// glyph.
pub open spec fn extraction<L>(
    render_primitive: RenderPrimitive,
    fonts: FontAssets,
    font_mapping: FontMapping,
    layout_engine: L,
    quads: Option<Seq<ExtractQuadBundle>>,
) -> bool where L: Fn(&KayakFont, &LayoutRequest) -> Vec<CharacterLayout>
    recommends
        render_primitive is Text,
        registered_font(render_primitive, font_mapping) is Some,
{
    let font_handle = registered_font(render_primitive, font_mapping)->0;
    match loaded_font(render_primitive, fonts, font_mapping) {
        None => quads == Some(Seq::<ExtractQuadBundle>::empty()),
        Some(font) => exists|request: LayoutRequest, layouts: Vec<CharacterLayout>|
            {
                &&& request@ == requested_layout(render_primitive)
                &&& #[trigger] layout_engine.ensures((&font, &request), layouts)
                &&& quads == if glyphs_known(font, layouts@) {
                    Some(
                        text_quads(
                            layouts@,
                            font,
                            font_handle,
                            render_primitive->color,
                            render_primitive->Text_layout.z_index,
                        ),
                    )
                } else {
                    None
                }
            },
    }
}

/// Extracts the quads of a text primitive: one per glyph that the layout
/// engine places, or none while the font is not loaded.
///
/// Three things are owed by the caller and not tested here: the primitive is
/// text, its font reference is registered, and the engine places only
/// characters for which the font it was given has a glyph.
pub fn extract_texts<'a, L>(
    render_primitive: &RenderPrimitive,
    fonts: &FontAssets<'a>,
    font_mapping: &FontMapping,
    layout_engine: L,
) -> (r: Vec<ExtractQuadBundle>) where L: Fn(&KayakFont, &LayoutRequest) -> Vec<CharacterLayout>
    requires
        render_primitive is Text,
        registered_font(*render_primitive, *font_mapping) is Some,
        engine_accepts(*render_primitive, *fonts, *font_mapping, layout_engine),
        engine_keeps_to_glyphs(*render_primitive, *fonts, *font_mapping, layout_engine),
    ensures
        extraction(*render_primitive, *fonts, *font_mapping, layout_engine, Some(r@)),
{
    match resolve_font(render_primitive, fonts, font_mapping) {
        None => Vec::new(),
        Some((font_handle, font)) => {
            let text = render_primitive.text_parts();
            let request = layout_request(render_primitive);
            let chars_layouts = layout_engine(font, &request);
            extract_quads(&chars_layouts, font, font_handle, text.color, text.layout.z_index)
        },
    }
}

/// As `extract_texts`, with any layout engine: `None` where the engine placed
/// a character for which the font has no glyph.
pub fn try_extract_texts<'a, L>(
    render_primitive: &RenderPrimitive,
    fonts: &FontAssets<'a>,
    font_mapping: &FontMapping,
    layout_engine: L,
) -> (r: Option<Vec<ExtractQuadBundle>>) where
    L: Fn(&KayakFont, &LayoutRequest) -> Vec<CharacterLayout>,

    requires
        render_primitive is Text,
        registered_font(*render_primitive, *font_mapping) is Some,
        engine_accepts(*render_primitive, *fonts, *font_mapping, layout_engine),
    ensures
        extraction(
            *render_primitive,
            *fonts,
            *font_mapping,
            layout_engine,
            match r {
                Some(quads) => Some(quads@),
                None => None,
            },
        ),
{
    match resolve_font(render_primitive, fonts, font_mapping) {
        None => Some(Vec::new()),
        Some((font_handle, font)) => {
            let text = render_primitive.text_parts();
            let request = layout_request(render_primitive);
            let chars_layouts = layout_engine(font, &request);
            try_extract_quads(&chars_layouts, font, font_handle, text.color, text.layout.z_index)
        },
    }
}

/// The quads of a text follow its layout: there are as many quads as
/// characters placed, and the rectangle of the quad at each place reaches
/// from the position of the character at that place over its size.
pub proof fn text_quads_follow_layout(
    layouts: Seq<CharacterLayout>,
    font: KayakFont,
    font_handle: FontHandle,
    background_color: Color,
    z_index: Scalar,
)
    ensures
        text_quads(layouts, font, font_handle, background_color, z_index).len() == layouts.len(),
        forall|i: int|
            0 <= i < layouts.len() ==> {
                let quad = #[trigger] text_quads(
                    layouts,
                    font,
                    font_handle,
                    background_color,
                    z_index,
                )[i].extracted_quad;
                &&& quad.rect.min == layouts[i].position
                &&& quad.rect.max == layouts[i].position.spec_plus(layouts[i].size)
                &&& quad.char_id == glyph_ids(font)[layouts[i].content]
            },
{
}

/// Once the font of a text primitive is loaded, the quads that extraction
/// gives follow what the layout engine placed for the primitive's request:
/// as many quads as characters, in the same order, each reaching from its
/// character's position over its size.
pub proof fn extracted_quads_follow_the_engine<L>(
    render_primitive: RenderPrimitive,
    fonts: FontAssets,
    font_mapping: FontMapping,
    layout_engine: L,
    quads: Seq<ExtractQuadBundle>,
) where L: Fn(&KayakFont, &LayoutRequest) -> Vec<CharacterLayout>
    requires
        render_primitive is Text,
        registered_font(render_primitive, font_mapping) is Some,
        loaded_font(render_primitive, fonts, font_mapping) is Some,
        extraction(render_primitive, fonts, font_mapping, layout_engine, Some(quads)),
    ensures
        exists|request: LayoutRequest, layouts: Vec<CharacterLayout>|
            {
                &&& request@ == requested_layout(render_primitive)
                &&& #[trigger] layout_engine.ensures(
                    (&loaded_font(render_primitive, fonts, font_mapping)->0, &request),
                    layouts,
                )
                &&& quads.len() == layouts@.len()
                &&& forall|i: int|
                    0 <= i < quads.len() ==> {
                        let rect = (#[trigger] quads[i]).extracted_quad.rect;
                        &&& rect.min == layouts@[i].position
                        &&& rect.max == layouts@[i].position.spec_plus(layouts@[i].size)
                    }
            },
{
}

/// While the font of a text primitive is registered but not loaded,
/// extraction gives no quad, whatever the layout engine would do.
pub proof fn unloaded_font_gives_no_quads<L>(
    render_primitive: RenderPrimitive,
    fonts: FontAssets,
    font_mapping: FontMapping,
    layout_engine: L,
    quads: Option<Seq<ExtractQuadBundle>>,
) where L: Fn(&KayakFont, &LayoutRequest) -> Vec<CharacterLayout>
    requires
        render_primitive is Text,
        registered_font(render_primitive, font_mapping) is Some,
        loaded_font(render_primitive, fonts, font_mapping) is None,
        extraction(render_primitive, fonts, font_mapping, layout_engine, quads),
    ensures
        quads == Some(Seq::<ExtractQuadBundle>::empty()),
{
}

/// Every quad that extraction gives for a text primitive is a text quad of
/// that primitive: it carries the primitive's color in the renderer's form,
/// the z-index of the primitive's box and the handle of its font, and holds
/// the defaults in the fields that text does not use.
pub proof fn extracted_quads_carry_the_primitive<L>(
    render_primitive: RenderPrimitive,
    fonts: FontAssets,
    font_mapping: FontMapping,
    layout_engine: L,
    quads: Seq<ExtractQuadBundle>,
) where L: Fn(&KayakFont, &LayoutRequest) -> Vec<CharacterLayout>
    requires
        render_primitive is Text,
        registered_font(render_primitive, font_mapping) is Some,
        extraction(render_primitive, fonts, font_mapping, layout_engine, Some(quads)),
    ensures
        forall|i: int|
            0 <= i < quads.len() ==> {
                let quad = (#[trigger] quads[i]).extracted_quad;
                &&& quad.color == render_color(render_primitive->color)
                &&& quad.z_index == render_primitive->Text_layout.z_index
                &&& quad.font_handle == registered_font(render_primitive, font_mapping)
                &&& quad.quad_type == UIQuadType::Text
                &&& quad.vertex_index == 0
                &&& quad.type_index == 0
                &&& quad.border_radius == no_border_radius()
                &&& quad.image is None
                &&& quad.uv_max is None
                &&& quad.uv_min is None
            },
{
}

/// Whether `layout_engine` is a function of what it is given: two calls with
/// the same font and equal requests place the same characters.
pub open spec fn engine_is_a_function<L>(
    layout_engine: L,
) -> bool where L: Fn(&KayakFont, &LayoutRequest) -> Vec<CharacterLayout> {
    forall|
        font: &KayakFont,
        first_request: &LayoutRequest,
        second_request: &LayoutRequest,
        first: Vec<CharacterLayout>,
        second: Vec<CharacterLayout>,
    |
        first_request@ == second_request@ && #[trigger] layout_engine.ensures(
            (font, first_request),
            first,
        ) && #[trigger] layout_engine.ensures((font, second_request), second) ==> first@
            == second@
}

/// With a layout engine that is a function of what it is given, extraction is
/// a function of the primitive, the registry and the store: two runs on the
/// same ones give the same quads.
pub proof fn extraction_is_a_function<L>(
    render_primitive: RenderPrimitive,
    fonts: FontAssets,
    font_mapping: FontMapping,
    layout_engine: L,
    first: Option<Seq<ExtractQuadBundle>>,
    second: Option<Seq<ExtractQuadBundle>>,
) where L: Fn(&KayakFont, &LayoutRequest) -> Vec<CharacterLayout>
    requires
        render_primitive is Text,
        registered_font(render_primitive, font_mapping) is Some,
        engine_is_a_function(layout_engine),
        extraction(render_primitive, fonts, font_mapping, layout_engine, first),
        extraction(render_primitive, fonts, font_mapping, layout_engine, second),
    ensures
        first == second,
{
}

} // verus!
