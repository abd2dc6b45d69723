//! The fonts of the site.

use vstd::prelude::*;

use crate::file_spec::FileSpec;
use crate::text::{lowercase, to_lowercase};

verus! {

/// A TrueType font: its content and its family name.
#[derive(Clone, Copy)]
pub struct TrueTypeFont {
    bytes: &'static [u8],
    family: &'static str,
}

/// The name of a font family's file: the family in lowercase, with the
/// `.ttf` extension.
pub open spec fn font_filename_spec(family: Seq<char>) -> Seq<char> {
    lowercase(family) + ".ttf"@
}

/// The CSS rule that declares a font family served from its file.
pub open spec fn font_face_css(family: Seq<char>) -> Seq<char> {
    "\n            @font-face {\n                font-family: '"@ + family
        + "';\n                src: url('/"@ + font_filename_spec(family)
        + "') format('truetype');\n            }"@
}

impl TrueTypeFont {
    /// The font's family name.
    pub closed spec fn spec_family(&self) -> Seq<char> {
        self.family@
    }

    /// The font's content.
    pub closed spec fn spec_bytes(&self) -> Seq<u8> {
        self.bytes@
    }

    /// The font of the given family with the given content.
    pub fn new(bytes: &'static [u8], family: &'static str) -> (font: Self)
        ensures
            font.spec_bytes() == bytes@,
            font.spec_family() == family@,
    {
        TrueTypeFont { bytes, family }
    }

    /// The font's family name.
    pub fn family(&self) -> (family: &str)
        ensures
            family@ == self.spec_family(),
    {
        self.family
    }

    /// The font's content.
    pub fn bytes(&self) -> (bytes: &'static [u8])
        ensures
            bytes@ == self.spec_bytes(),
    {
        self.bytes
    }

    /// The name of the font's file.
    pub fn filename(&self) -> (name: String)
        ensures
            name@ == font_filename_spec(self.spec_family()),
    {
        let mut name = to_lowercase(self.family);
        name.append(".ttf");
        name
    }

    /// The CSS that declares the font.
    pub fn render(&self) -> (css: String)
        ensures
            css@ == font_face_css(self.spec_family()),
    {
        let mut css = String::from_str("\n            @font-face {\n                font-family: '");
        css.append(self.family);
        css.append("';\n                src: url('/");
        let filename = self.filename();
        css.append(filename.as_str());
        css.append("') format('truetype');\n            }");
        css
    }
}

/// The Vollkorn font, with the given content.
pub fn vollkorn(bytes: &'static [u8]) -> (font: TrueTypeFont)
    ensures
        font.spec_family() == "Vollkorn"@,
        font.spec_bytes() == bytes@,
{
    TrueTypeFont::new(bytes, "Vollkorn")
}

/// The fonts of the site as files: each font at `/FAMILY.ttf`, the family
/// in lowercase. The site has one font, Vollkorn, with the given content.
pub fn all(vollkorn_bytes: &'static [u8]) -> (specs: Vec<FileSpec<TrueTypeFont>>)
    ensures
        specs@.len() == 1,
        specs@[0].spec_path() == "/"@ + lowercase("Vollkorn"@) + ".ttf"@,
        specs@[0].spec_source().spec_family() == "Vollkorn"@,
        specs@[0].spec_source().spec_bytes() == vollkorn_bytes@,
{
    let fonts = vec![vollkorn(vollkorn_bytes)];
    let mut specs: Vec<FileSpec<TrueTypeFont>> = Vec::new();
    let mut i: usize = 0;
    while i < fonts.len()
        invariant
            fonts@.len() == 1,
            fonts@[0].spec_family() == "Vollkorn"@,
            fonts@[0].spec_bytes() == vollkorn_bytes@,
            i <= 1,
            specs@.len() == i,
            i == 1 ==> specs@[0].spec_path() == "/"@ + lowercase("Vollkorn"@) + ".ttf"@
                && specs@[0].spec_source() == fonts@[0],
        decreases 1 - i,
    {
        let font = fonts[i];
        let mut path = String::from_str("/");
        let lower = to_lowercase(font.family());
        path.append(lower.as_str());
        path.append(".ttf");
        specs.push(FileSpec::new(path, font));
        i = i + 1;
    }
    specs
}

} // verus!
