//! Fonts: the loaded resource, the registry of font references and the store
//! of loaded fonts.

use kayak_font::KayakFont;
use std::collections::HashMap;
use vstd::prelude::*;

verus! {

/// A loaded font of `kayak_font`. Its contents are not visible here.
#[verifier::external_type_specification]
#[verifier::external_body]
pub struct ExKayakFont(KayakFont);

/// The table of a loaded font that takes each character of its glyph set to
/// the id of that character's glyph in the font's atlas.
pub uninterp spec fn glyph_ids(font: KayakFont) -> Map<char, u32>;

/// Looks up the atlas id of a character.
///
/// Trusted: calls `KayakFont::get_char_id`, which reads the font's table from
/// characters to ids and copies the entry out, or gives `None` where the
/// table has no entry for `c`.
#[verifier::external_body]
pub(crate) fn char_id(font: &KayakFont, c: char) -> (r: Option<u32>)
    ensures
        glyph_ids(*font).contains_key(c) ==> r == Some(glyph_ids(*font)[c]),
        !glyph_ids(*font).contains_key(c) ==> r is None,
{
    font.get_char_id(c)
}

/// Names a font resource in the asset store.
#[derive(Clone, Copy, Debug, PartialEq, Eq, Hash)]
pub struct FontHandle {
    pub id: u64,
}

/// The registry of fonts: each font reference that a text primitive may use,
/// with the handle of its resource. References are given out in order, from 0.
pub struct FontMapping {
    handles: Vec<FontHandle>,
}

impl View for FontMapping {
    type V = Seq<FontHandle>;

    /// The registered handles; the reference of a font is its place here.
    closed spec fn view(&self) -> Seq<FontHandle> {
        self.handles@
    }
}

impl FontMapping {
    /// The handle registered under `font`, if any.
    pub open spec fn handle_of(&self, font: u16) -> Option<FontHandle> {
        if font < self@.len() {
            Some(self@[font as int])
        } else {
            None
        }
    }

    /// A registry without fonts.
    pub fn new() -> (r: FontMapping)
        ensures
            r@ == Seq::<FontHandle>::empty(),
    {
        FontMapping { handles: Vec::new() }
    }

    /// Registers `handle` and gives its reference, or `None` where all
    /// references are taken.
    pub fn add(&mut self, handle: FontHandle) -> (r: Option<u16>)
        ensures
            r is Some <==> old(self)@.len() < 0x1_0000,
            match r {
                Some(font) => font == old(self)@.len() && final(self)@ == old(self)@.push(handle),
                None => final(self)@ == old(self)@,
            },
    {
        let n = self.handles.len();
        if n < 0x1_0000 {
            self.handles.push(handle);
            Some(n as u16)
        } else {
            None
        }
    }

    /// The handle registered under `font`, or `None` where that reference was
    /// never given out.
    pub fn get_handle(&self, font: u16) -> (r: Option<FontHandle>)
        ensures
            r == self.handle_of(font),
    {
        if (font as usize) < self.handles.len() {
            Some(self.handles[font as usize])
        } else {
            None
        }
    }
}

/// The store of loaded fonts, by handle. A registered font is absent from it
/// until its resource has been loaded.
pub struct FontAssets<'a> {
    fonts: HashMap<u64, &'a KayakFont>,
}

impl<'a> FontAssets<'a> {
    /// The font that the store holds under `handle`, if it is loaded.
    pub closed spec fn loaded(&self, handle: FontHandle) -> Option<KayakFont> {
        if self.fonts@.contains_key(handle.id) {
            Some(*self.fonts@[handle.id])
        } else {
            None
        }
    }

    /// A store in which no font is loaded.
    pub fn new() -> (r: FontAssets<'a>)
        ensures
            forall|h: FontHandle| (#[trigger] r.loaded(h)) is None,
    {
        FontAssets { fonts: HashMap::new() }
    }

    /// Records that the font under `handle` is loaded, as `font`.
    pub fn insert(&mut self, handle: FontHandle, font: &'a KayakFont)
        ensures
            final(self).loaded(handle) == Some(*font),
            forall|other: FontHandle|
                other != handle ==> (#[trigger] final(self).loaded(other)) == old(self).loaded(
                    other,
                ),
    {
        self.fonts.insert(handle.id, font);
    }

    /// The loaded font under `handle`, or `None` while it is not loaded.
    pub fn get(&self, handle: FontHandle) -> (r: Option<&'a KayakFont>)
        ensures
            match r {
                Some(font) => self.loaded(handle) == Some(*font),
                None => self.loaded(handle) is None,
            },
    {
        match self.fonts.get(&handle.id) {
            Some(font) => Some(*font),
            None => None,
        }
    }
}

} // verus!
