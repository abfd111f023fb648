//! What a font file says: the questions the layout asks of a face, answered
//! by the font parser and the shaper.
//!
//! A face is always addressed by the bytes of its file, the index of the
//! face in that file, and the settings of the three variation axes the
//! renderer selects. None of the answers is proved here. Each is given a
//! name, and the contracts of the layout are stated over those names.

use super::layout::ShapedGlyph;
use rustybuzz::ttf_parser::{GlyphId, Tag};
use rustybuzz::{shape, Face, Feature, UnicodeBuffer, Variation};
use vstd::prelude::*;

verus! {

/// The ascender of a face in font units: what `ttf_parser::Face::ascender`
/// returns for the face once the axis settings are applied, or `None` where
/// the bytes do not parse as a font with that face.
pub uninterp spec fn face_ascender(
    data: Seq<u8>,
    index: u32,
    ital: Seq<char>,
    wght: Seq<char>,
    wdth: Seq<char>,
) -> Option<i16>;

/// The descender of a face in font units: what
/// `ttf_parser::Face::descender` returns for the face once the axis settings
/// are applied, or `None` where the bytes do not parse.
pub uninterp spec fn face_descender(
    data: Seq<u8>,
    index: u32,
    ital: Seq<char>,
    wght: Seq<char>,
    wdth: Seq<char>,
) -> Option<i16>;

/// The glyph a face draws a character with: what
/// `ttf_parser::Face::glyph_index` returns, or `None` where the bytes do not
/// parse.
pub uninterp spec fn face_glyph_index(
    data: Seq<u8>,
    index: u32,
    ital: Seq<char>,
    wght: Seq<char>,
    wdth: Seq<char>,
    c: char,
) -> Option<u16>;

/// The horizontal advance of a glyph in font units: what
/// `ttf_parser::Face::glyph_hor_advance` returns, or `None` where the bytes
/// do not parse.
pub uninterp spec fn face_glyph_hor_advance(
    data: Seq<u8>,
    index: u32,
    ital: Seq<char>,
    wght: Seq<char>,
    wdth: Seq<char>,
    glyph: u16,
) -> Option<u16>;

/// The glyphs `rustybuzz::shape` turns a text into, with the given features
/// switched on for the whole text, or `None` where the bytes do not parse.
pub uninterp spec fn shaped_run(
    data: Seq<u8>,
    index: u32,
    ital: Seq<char>,
    wght: Seq<char>,
    wdth: Seq<char>,
    features: Seq<([u8; 4], u32)>,
    text: Seq<char>,
) -> Option<Seq<ShapedGlyph>>;

/// A run that may be missing, with the run taken by its glyphs.
pub open spec fn run_view(run: Option<Vec<ShapedGlyph>>) -> Option<Seq<ShapedGlyph>> {
    match run {
        Some(run) => Some(run@),
        None => None,
    }
}

/// Calls `ttf_parser::Face::ascender` on the face that
/// `rustybuzz::Face::from_slice` parses and `set_variations` adjusts. The
/// contract only gives the answer its name, [`face_ascender`]. An axis
/// setting that the shaper cannot read is skipped.
#[verifier::external_body]
pub(crate) fn ascender(data: &[u8], index: u32, ital: &str, wght: &str, wdth: &str) -> (r: Option<
    i16,
>)
    ensures
        r == face_ascender(data@, index, ital@, wght@, wdth@),
{
    let mut face = Face::from_slice(data, index)?;
    let axes: Vec<Variation> = [ital, wght, wdth].iter().filter_map(|s| s.parse().ok()).collect();
    face.set_variations(&axes);
    Some(face.ascender())
}

/// Calls `ttf_parser::Face::descender` on the face that
/// `rustybuzz::Face::from_slice` parses and `set_variations` adjusts. The
/// contract only gives the answer its name, [`face_descender`].
#[verifier::external_body]
pub(crate) fn descender(data: &[u8], index: u32, ital: &str, wght: &str, wdth: &str) -> (r: Option<
    i16,
>)
    ensures
        r == face_descender(data@, index, ital@, wght@, wdth@),
{
    let mut face = Face::from_slice(data, index)?;
    let axes: Vec<Variation> = [ital, wght, wdth].iter().filter_map(|s| s.parse().ok()).collect();
    face.set_variations(&axes);
    Some(face.descender())
}

/// Calls `ttf_parser::Face::glyph_index` on the face that
/// `rustybuzz::Face::from_slice` parses and `set_variations` adjusts. The
/// contract only gives the answer its name, [`face_glyph_index`].
#[verifier::external_body]
pub(crate) fn glyph_index(
    data: &[u8],
    index: u32,
    ital: &str,
    wght: &str,
    wdth: &str,
    c: char,
) -> (r: Option<u16>)
    ensures
        r == face_glyph_index(data@, index, ital@, wght@, wdth@, c),
{
    let mut face = Face::from_slice(data, index)?;
    let axes: Vec<Variation> = [ital, wght, wdth].iter().filter_map(|s| s.parse().ok()).collect();
    face.set_variations(&axes);
    face.glyph_index(c).map(|glyph| glyph.0)
}

/// Calls `ttf_parser::Face::glyph_hor_advance` on the face that
/// `rustybuzz::Face::from_slice` parses and `set_variations` adjusts. The
/// contract only gives the answer its name, [`face_glyph_hor_advance`].
#[verifier::external_body]
pub(crate) fn glyph_hor_advance(
    data: &[u8],
    index: u32,
    ital: &str,
    wght: &str,
    wdth: &str,
    glyph: u16,
) -> (r: Option<u16>)
    ensures
        r == face_glyph_hor_advance(data@, index, ital@, wght@, wdth@, glyph),
{
    let mut face = Face::from_slice(data, index)?;
    let axes: Vec<Variation> = [ital, wght, wdth].iter().filter_map(|s| s.parse().ok()).collect();
    face.set_variations(&axes);
    face.glyph_hor_advance(GlyphId(glyph))
}

/// Calls `rustybuzz::shape` on the text, with the face that
/// `rustybuzz::Face::from_slice` parses and `set_variations` adjusts, and
/// hands out each glyph with its position. The contract only gives the run
/// its name, [`shaped_run`].
#[verifier::external_body]
pub(crate) fn shape_run(
    data: &[u8],
    index: u32,
    ital: &str,
    wght: &str,
    wdth: &str,
    features: &[([u8; 4], u32)],
    text: &str,
) -> (r: Option<Vec<ShapedGlyph>>)
    ensures
        run_view(r) == shaped_run(data@, index, ital@, wght@, wdth@, features@, text@),
{
    let mut face = Face::from_slice(data, index)?;
    face.set_variations(
        &[ital, wght, wdth].iter().filter_map(|s| s.parse().ok()).collect::<Vec<_>>(),
    );
    let on: Vec<_> = features.iter().map(|f| Feature::new(Tag::from_bytes(&f.0), f.1, ..)).collect();
    let mut buffer = UnicodeBuffer::new();
    buffer.push_str(text);
    let run = shape(&face, &on, buffer);
    Some(
        run.glyph_infos().iter().zip(run.glyph_positions()).map(
            |(i, p)| ShapedGlyph::new(i.glyph_id, p.x_advance, p.y_advance, p.x_offset, p.y_offset),
        ).collect(),
    )
}

} // verus!
