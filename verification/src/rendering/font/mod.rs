//! Fonts and the runs of glyphs they shape.
//!
//! A [`Font`] is a face of a font file with the variation axes set that the
//! renderer selects: italic, weight and width. It shapes text into
//! [`Glyphs`], which are then laid out against a cursor.

pub mod face;
pub mod glyph_cache;
pub mod layout;

use self::layout::{
    coordinate_in_range, is_left_aligned, is_right_aligned, is_tabular, layout_centered,
    layout_left_aligned, layout_right_aligned, layout_tabular_numbers, centered_start, spec_width,
    sum_y, Cursor, PositionedGlyph, ShapedGlyph,
};
use self::glyph_cache::{GlyphCache, Layer};
use super::{solid, spec_decode_color, Shader};
use crate::settings::{Color, FontStretch, FontStyle, FontWeight};
use vstd::prelude::*;
use vstd::slice::slice_to_vec;

verus! {

/// The character a run that was cut short is closed with.
pub const ELLIPSIS: char = '\u{2026}';

/// A face of a font file, with its variation axes set.
pub struct Font {
    data: Vec<u8>,
    index: u32,
    style: FontStyle,
    weight: FontWeight,
    stretch: FontStretch,
    ascender: i16,
    descender: i16,
}

/// The ten digit characters, from 0 to 9.
pub open spec fn digit_chars() -> Seq<char> {
    seq!['0', '1', '2', '3', '4', '5', '6', '7', '8', '9']
}

/// The character of the digit `d`.
pub open spec fn digit_char(d: int) -> char {
    digit_chars()[d]
}

/// The OpenType feature that asks a font for digits of equal width, and the
/// value that switches it on.
pub open spec fn tabular_feature() -> ([u8; 4], u32) {
    ([116u8, 110u8, 117u8, 109u8], 1u32)
}

impl Font {
    /// The bytes of the font file.
    pub closed spec fn data(&self) -> Seq<u8> {
        self.data@
    }

    /// The index of the face in the font file.
    pub closed spec fn index(&self) -> u32 {
        self.index
    }

    /// The style the italic axis is set for.
    pub closed spec fn style(&self) -> FontStyle {
        self.style
    }

    /// The weight the weight axis is set for.
    pub closed spec fn weight(&self) -> FontWeight {
        self.weight
    }

    /// The stretch the width axis is set for.
    pub closed spec fn stretch(&self) -> FontStretch {
        self.stretch
    }

    /// How far the face rises above the baseline, in font units.
    pub closed spec fn spec_ascender(&self) -> i16 {
        self.ascender
    }

    /// How far the face reaches below the baseline, in font units. Negative
    /// for a face that does.
    pub closed spec fn spec_descender(&self) -> i16 {
        self.descender
    }

    /// The height of the face in font units: from its descender up to its
    /// ascender. One unit of text size is one such height.
    pub open spec fn spec_height(&self) -> int {
        self.spec_ascender() - self.spec_descender()
    }

    /// The glyph the face draws a character with, if it has one.
    pub open spec fn spec_glyph_index(&self, c: char) -> Option<u16> {
        face::face_glyph_index(
            self.data(),
            self.index(),
            self.style().spec_axis_setting(),
            self.weight().spec_axis_setting(),
            self.stretch().spec_axis_setting(),
            c,
        )
    }

    /// The horizontal advance of a glyph in font units, if the face states
    /// one.
    pub open spec fn spec_glyph_hor_advance(&self, glyph: u16) -> Option<u16> {
        face::face_glyph_hor_advance(
            self.data(),
            self.index(),
            self.style().spec_axis_setting(),
            self.weight().spec_axis_setting(),
            self.stretch().spec_axis_setting(),
            glyph,
        )
    }

    /// The run the face shapes a text into with the given features. Empty
    /// where the bytes of the font do not parse.
    pub open spec fn spec_shape(&self, features: Seq<([u8; 4], u32)>, text: Seq<char>) -> Seq<
        ShapedGlyph,
    > {
        match face::shaped_run(
            self.data(),
            self.index(),
            self.style().spec_axis_setting(),
            self.weight().spec_axis_setting(),
            self.stretch().spec_axis_setting(),
            features,
            text,
        ) {
            Some(run) => run,
            None => Seq::empty(),
        }
    }

    /// The glyph a run that was cut short is closed with: the glyph of the
    /// ellipsis character, or glyph 0 where the face has none.
    pub open spec fn spec_ellipsis(&self) -> u16 {
        match self.spec_glyph_index(ELLIPSIS) {
            Some(glyph) => glyph,
            None => 0,
        }
    }

    /// The advance of [`Self::spec_ellipsis`], or 0 where the face states
    /// none.
    pub open spec fn spec_ellipsis_advance(&self) -> u16 {
        match self.spec_glyph_hor_advance(self.spec_ellipsis()) {
            Some(advance) => advance,
            None => 0,
        }
    }

    /// Whether a font file holds a face of the given index that can be
    /// loaded with the given axis settings.
    pub open spec fn parses(
        data: Seq<u8>,
        index: u32,
        style: FontStyle,
        weight: FontWeight,
        stretch: FontStretch,
    ) -> bool {
        &&& face::face_ascender(
            data,
            index,
            style.spec_axis_setting(),
            weight.spec_axis_setting(),
            stretch.spec_axis_setting(),
        ) is Some
        &&& face::face_descender(
            data,
            index,
            style.spec_axis_setting(),
            weight.spec_axis_setting(),
            stretch.spec_axis_setting(),
        ) is Some
    }

    /// Whether this is the face of the given index of a font file, with
    /// the given axis settings.
    pub open spec fn is_face(
        &self,
        data: Seq<u8>,
        index: u32,
        style: FontStyle,
        weight: FontWeight,
        stretch: FontStretch,
    ) -> bool {
        &&& self.data() == data
        &&& self.index() == index
        &&& self.style() == style
        &&& self.weight() == weight
        &&& self.stretch() == stretch
        &&& Some(self.spec_ascender()) == face::face_ascender(
            data,
            index,
            style.spec_axis_setting(),
            weight.spec_axis_setting(),
            stretch.spec_axis_setting(),
        )
        &&& Some(self.spec_descender()) == face::face_descender(
            data,
            index,
            style.spec_axis_setting(),
            weight.spec_axis_setting(),
            stretch.spec_axis_setting(),
        )
    }

    /// Loads a face from the bytes of a font file and sets its three
    /// variation axes. A face without such axes ignores the settings; they
    /// are kept all the same.
    ///
    /// Returns `None` where the bytes do not parse as a font with a face of
    /// that index.
    pub fn from_slice(
        data: &[u8],
        index: u32,
        style: FontStyle,
        weight: FontWeight,
        stretch: FontStretch,
    ) -> (font: Option<Font>)
        ensures
            font is Some <==> Self::parses(data@, index, style, weight, stretch),
            font matches Some(f) ==> f.is_face(data@, index, style, weight, stretch),
    {
        let ital = style.axis_setting();
        let wght = weight.axis_setting();
        let wdth = stretch.axis_setting();
        let ascender = match face::ascender(data, index, ital, wght, wdth) {
            Some(ascender) => ascender,
            None => {
                return None;
            },
        };
        let descender = match face::descender(data, index, ital, wght, wdth) {
            Some(descender) => descender,
            None => {
                return None;
            },
        };
        Some(Font { data: slice_to_vec(data), index, style, weight, stretch, ascender, descender })
    }

    /// Returns the bytes of the font file.
    pub fn bytes(&self) -> (data: &[u8])
        ensures
            data@ == self.data(),
    {
        self.data.as_slice()
    }

    /// Returns the index of the face in the font file.
    pub fn face_index(&self) -> (index: u32)
        ensures
            index == self.index(),
    {
        self.index
    }

    /// Returns what the three variation axes are set for: the style, the
    /// weight and the stretch.
    pub fn axes(&self) -> (axes: (FontStyle, FontWeight, FontStretch))
        ensures
            axes == (self.style(), self.weight(), self.stretch()),
    {
        (self.style, self.weight, self.stretch)
    }

    /// Selects a text size, counted in steps of 1/120 of a component row. A
    /// size of one row draws the face one row high.
    pub fn scale(&self, size: u64) -> (scaled: ScaledFont<'_>)
        ensures
            scaled.font == self,
            scaled.size == size,
    {
        ScaledFont { font: self, size }
    }

    /// Returns how far the face reaches below the baseline, in font units.
    pub fn descender(&self) -> (descender: i16)
        ensures
            descender == self.spec_descender(),
    {
        self.descender
    }

    /// Returns the height of the face in font units.
    pub fn height(&self) -> (height: i32)
        ensures
            height == self.spec_height(),
    {
        self.ascender as i32 - self.descender as i32
    }

    /// Looks up the glyph the face draws a character with.
    pub fn glyph_index(&self, c: char) -> (glyph: Option<u16>)
        ensures
            glyph == self.spec_glyph_index(c),
    {
        face::glyph_index(
            self.data.as_slice(),
            self.index,
            self.style.axis_setting(),
            self.weight.axis_setting(),
            self.stretch.axis_setting(),
            c,
        )
    }

    /// Looks up the horizontal advance of a glyph, in font units.
    pub fn glyph_hor_advance(&self, glyph: u16) -> (advance: Option<u16>)
        ensures
            advance == self.spec_glyph_hor_advance(glyph),
    {
        face::glyph_hor_advance(
            self.data.as_slice(),
            self.index,
            self.style.axis_setting(),
            self.weight.axis_setting(),
            self.stretch.axis_setting(),
            glyph,
        )
    }

    /// Looks up the glyph a run that was cut short is closed with, and its
    /// advance.
    pub fn ellipsis(&self) -> (r: (u16, u16))
        ensures
            r.0 == self.spec_ellipsis(),
            r.1 == self.spec_ellipsis_advance(),
    {
        let glyph: u16 = match self.glyph_index(ELLIPSIS) {
            Some(glyph) => glyph,
            None => 0,
        };
        let advance: u16 = match self.glyph_hor_advance(glyph) {
            Some(advance) => advance,
            None => 0,
        };
        (glyph, advance)
    }

    /// The glyph the face draws the digit `d` with, or glyph 0 where it has
    /// none.
    pub open spec fn spec_digit_glyph(&self, d: int) -> u16 {
        match self.spec_glyph_index(digit_char(d)) {
            Some(glyph) => glyph,
            None => 0,
        }
    }

    /// The advance of the glyph of the digit `d`, or 0 where the face states
    /// none.
    pub open spec fn spec_digit_advance(&self, d: int) -> u16 {
        match self.spec_glyph_hor_advance(self.spec_digit_glyph(d)) {
            Some(advance) => advance,
            None => 0,
        }
    }

    /// The ten digit glyphs, from 0 to 9.
    pub open spec fn spec_digits(&self) -> Seq<u32> {
        Seq::new(10, |d: int| self.spec_digit_glyph(d) as u32)
    }

    /// The largest advance among the glyphs of the digits below `n`.
    pub open spec fn widest_digit_below(&self, n: int) -> u16
        decreases n,
    {
        if n <= 0 {
            0
        } else if self.spec_digit_advance(n - 1) > self.widest_digit_below(n - 1) {
            self.spec_digit_advance(n - 1)
        } else {
            self.widest_digit_below(n - 1)
        }
    }

    /// The width of the cell every digit is given in a tabular layout: the
    /// largest advance among the ten digit glyphs.
    pub open spec fn spec_digit_width(&self) -> u16 {
        self.widest_digit_below(10)
    }

    /// The digit cell is as wide as the widest of the ten digits: no digit
    /// is wider, and one of them is exactly that wide.
    pub proof fn lemma_digit_width_is_max(&self)
        ensures
            forall|d: int| 0 <= d < 10 ==> #[trigger] self.spec_digit_advance(d)
                <= self.spec_digit_width(),
            exists|d: int| 0 <= d < 10 && #[trigger] self.spec_digit_advance(d)
                == self.spec_digit_width(),
    {
        self.lemma_widest_digit_below(10);
        if self.spec_digit_width() == 0 {
            assert(self.spec_digit_advance(0) == self.spec_digit_width());
        }
    }

    proof fn lemma_widest_digit_below(&self, n: int)
        requires
            0 <= n,
        ensures
            forall|d: int| 0 <= d < n ==> #[trigger] self.spec_digit_advance(d)
                <= self.widest_digit_below(n),
            self.widest_digit_below(n) == 0 || exists|d: int|
                0 <= d < n && #[trigger] self.spec_digit_advance(d) == self.widest_digit_below(n),
        decreases n,
    {
        if n > 0 {
            self.lemma_widest_digit_below(n - 1);
            if self.widest_digit_below(n) != 0 {
                if self.spec_digit_advance(n - 1) > self.widest_digit_below(n - 1) {
                    assert(self.spec_digit_advance(n - 1) == self.widest_digit_below(n));
                } else {
                    let d = choose|d: int|
                        0 <= d < n - 1 && #[trigger] self.spec_digit_advance(d)
                            == self.widest_digit_below(n - 1);
                    assert(self.spec_digit_advance(d) == self.widest_digit_below(n));
                }
            }
        }
    }

    /// Looks up the ten digit glyphs and the width of the digit cell.
    pub fn digit_metrics(&self) -> (r: ([u32; 10], u16))
        ensures
            r.0@ == self.spec_digits(),
            r.1 == self.spec_digit_width(),
    {
        let chars: [char; 10] = ['0', '1', '2', '3', '4', '5', '6', '7', '8', '9'];
        let mut digits: [u32; 10] = [0u32; 10];
        let mut digit_width: u16 = 0;
        let mut d: usize = 0;
        while d < 10
            invariant
                0 <= d <= 10,
                chars@ == digit_chars(),
                digit_width == self.widest_digit_below(d as int),
                forall|e: int| 0 <= e < d ==> digits@[e] == self.spec_digit_glyph(e) as u32,
            decreases 10 - d,
        {
            let glyph: u16 = match self.glyph_index(chars[d]) {
                Some(glyph) => glyph,
                None => 0,
            };
            digits[d] = glyph as u32;
            let advance: u16 = match self.glyph_hor_advance(glyph) {
                Some(advance) => advance,
                None => 0,
            };
            if advance > digit_width {
                digit_width = advance;
            }
            d = d + 1;
        }
        assert(digits@ =~= self.spec_digits());
        (digits, digit_width)
    }

    /// Shapes a text with the given features switched on.
    fn shape_with(&self, features: &Vec<([u8; 4], u32)>, text: &str) -> (run: Vec<ShapedGlyph>)
        ensures
            run@ == self.spec_shape(features@, text@),
    {
        match face::shape_run(
            self.data.as_slice(),
            self.index,
            self.style.axis_setting(),
            self.weight.axis_setting(),
            self.stretch.axis_setting(),
            features.as_slice(),
            text,
        ) {
            Some(run) => run,
            None => Vec::new(),
        }
    }
}

/// A font at a text size.
#[derive(Clone, Copy)]
pub struct ScaledFont<'f> {
    /// The font.
    pub font: &'f Font,
    /// The text size, in steps of 1/120 of a component row.
    pub size: u64,
}

/// The quotient of two numbers, rounded towards zero.
pub open spec fn toward_zero(numerator: int, denominator: int) -> int {
    if numerator >= 0 {
        numerator / denominator
    } else {
        -((-numerator) / denominator)
    }
}

/// Divides and rounds towards zero.
fn divide(numerator: i128, denominator: i128) -> (quotient: i128)
    requires
        denominator > 0,
        -0x4000_0000_0000_0000_0000_0000_0000_0000 <= numerator
            <= 0x4000_0000_0000_0000_0000_0000_0000_0000,
    ensures
        quotient == toward_zero(numerator as int, denominator as int),
        numerator >= 0 ==> 0 <= quotient <= numerator,
        numerator <= 0 ==> numerator <= quotient <= 0,
{
    if numerator >= 0 {
        let q: u128 = (numerator as u128) / (denominator as u128);
        assert(0 <= q <= numerator) by (nonlinear_arith)
            requires
                q == (numerator as int) / (denominator as int),
                numerator >= 0,
                denominator > 0,
        ;
        q as i128
    } else {
        let n: u128 = (-numerator) as u128;
        let q: u128 = n / (denominator as u128);
        assert(0 <= q <= n) by (nonlinear_arith)
            requires
                q == (n as int) / (denominator as int),
                n >= 0,
                denominator > 0,
        ;
        -(q as i128)
    }
}

impl<'f> ScaledFont<'f> {
    /// A length of component space in the half font units of this font at
    /// this size, rounded towards zero. One row of text size is as many
    /// font units as the face is high.
    pub open spec fn spec_half_units(self, steps: int) -> int {
        toward_zero(steps * 2 * self.font.spec_height(), self.size as int)
    }

    /// A length in the half font units of another face at the same text
    /// size, in the half font units of this one, rounded towards zero.
    pub open spec fn spec_carry_over(self, half_units: int, from: &Font) -> int {
        toward_zero(half_units * self.font.spec_height(), from.spec_height())
    }

    /// Turns a length of component space, in steps, into half font units.
    pub fn half_units(self, steps: i128) -> (half_units: i128)
        requires
            self.font.spec_height() > 0,
            self.size > 0,
            -0x100_0000_0000_0000_0000 <= steps <= 0x100_0000_0000_0000_0000,
        ensures
            half_units == self.spec_half_units(steps as int),
            -0x1_0000_0000_0000_0000_0000_0000 <= half_units <= 0x1_0000_0000_0000_0000_0000_0000,
    {
        let height: i128 = self.font.height() as i128;
        assert(-0x1_0000_0000_0000_0000_0000_0000 <= steps * 2 * height
            <= 0x1_0000_0000_0000_0000_0000_0000) by (nonlinear_arith)
            requires
                0 < height <= 0x1_0000,
                -0x100_0000_0000_0000_0000 <= steps <= 0x100_0000_0000_0000_0000,
        ;
        divide(steps * 2 * height, self.size as i128)
    }

    /// Turns a length in the half font units of another face at the same
    /// text size into the half font units of this one.
    pub fn carry_over(self, half_units: i128, from: &Font) -> (carried: i128)
        requires
            self.font.spec_height() > 0,
            from.spec_height() > 0,
            -0x10_0000_0000_0000_0000_0000_0000 <= half_units
                <= 0x10_0000_0000_0000_0000_0000_0000,
        ensures
            carried == self.spec_carry_over(half_units as int, from),
            -0x10_0000_0000_0000_0000_0000_0000_0000 <= carried
                <= 0x10_0000_0000_0000_0000_0000_0000_0000,
    {
        let height: i128 = self.font.height() as i128;
        assert(-0x10_0000_0000_0000_0000_0000_0000_0000 <= half_units * height
            <= 0x10_0000_0000_0000_0000_0000_0000_0000) by (nonlinear_arith)
            requires
                0 < height <= 0x1_0000,
                -0x10_0000_0000_0000_0000_0000_0000 <= half_units
                    <= 0x10_0000_0000_0000_0000_0000_0000,
        ;
        divide(half_units * height, from.height() as i128)
    }

    /// Shapes a text the ordinary way, with ligatures and kerning.
    pub fn shape(self, text: &str) -> (glyphs: Glyphs<'f>)
        ensures
            glyphs.font() == self,
            glyphs@ == self.font.spec_shape(Seq::empty(), text@),
    {
        let features: Vec<([u8; 4], u32)> = Vec::new();
        Glyphs { font: self, glyphs: self.font.shape_with(&features, text) }
    }

    /// Shapes a text of numbers: as [`Self::shape`] does, but asking the
    /// font for digits of equal width. A font is free to ignore that, so the
    /// layout of such a run does not rely on it.
    pub fn shape_tabular_numbers(self, text: &str) -> (glyphs: Glyphs<'f>)
        ensures
            glyphs.font() == self,
            glyphs@ == self.font.spec_shape(seq![tabular_feature()], text@),
    {
        let mut features: Vec<([u8; 4], u32)> = Vec::new();
        features.push(([116u8, 110u8, 117u8, 109u8], 1u32));
        assert(features@ =~= seq![tabular_feature()]);
        Glyphs { font: self, glyphs: self.font.shape_with(&features, text) }
    }
}

/// A shaped run together with the font that shaped it.
pub struct Glyphs<'f> {
    font: ScaledFont<'f>,
    glyphs: Vec<ShapedGlyph>,
}

impl<'f> View for Glyphs<'f> {
    type V = Seq<ShapedGlyph>;

    closed spec fn view(&self) -> Seq<ShapedGlyph> {
        self.glyphs@
    }
}

impl<'f> Glyphs<'f> {
    /// The font that shaped the run, at the size it was shaped for.
    pub closed spec fn font(&self) -> ScaledFont<'f> {
        self.font
    }

    /// Lays the run out from the cursor to the right, cut short and closed
    /// with the font's ellipsis where it would end to the right of `max_x`.
    pub fn left_aligned(&self, cursor: &mut Cursor, max_x: i128) -> (out: Vec<PositionedGlyph>)
        requires
            old(cursor).in_range(),
            coordinate_in_range(max_x as int),
        ensures
            is_left_aligned(
                self@,
                old(cursor).x as int,
                old(cursor).y as int,
                max_x as int,
                self.font().font.spec_ellipsis(),
                self.font().font.spec_ellipsis_advance(),
                out@,
                final(cursor).x as int,
                final(cursor).y as int,
            ),
    {
        let (ellipsis, advance) = self.font.font.ellipsis();
        layout_left_aligned(&self.glyphs, cursor, max_x, ellipsis, advance)
    }

    /// Lays the run out so that it ends at the cursor.
    pub fn right_aligned(&self, cursor: &mut Cursor) -> (out: Vec<PositionedGlyph>)
        requires
            old(cursor).in_range(),
        ensures
            is_right_aligned(
                self@,
                old(cursor).x as int,
                old(cursor).y as int,
                out@,
                final(cursor).x as int,
                final(cursor).y as int,
            ),
    {
        layout_right_aligned(&self.glyphs, cursor)
    }

    /// Lays the run out around the cursor, inside the span from `min_x` to
    /// `max_x`.
    pub fn centered(&self, cursor: &mut Cursor, min_x: i128, max_x: i128) -> (out: Vec<
        PositionedGlyph,
    >)
        requires
            old(cursor).in_range(),
            coordinate_in_range(min_x as int),
            coordinate_in_range(max_x as int),
        ensures
            is_left_aligned(
                self@,
                centered_start(self@, old(cursor).x as int, min_x as int, max_x as int),
                old(cursor).y - sum_y(self@, self@.len() as int),
                max_x as int,
                self.font().font.spec_ellipsis(),
                self.font().font.spec_ellipsis_advance(),
                out@,
                final(cursor).x as int,
                final(cursor).y as int,
            ),
    {
        let (ellipsis, advance) = self.font.font.ellipsis();
        layout_centered(&self.glyphs, cursor, min_x, max_x, ellipsis, advance)
    }

    /// Lays the run out so that it ends at the cursor, with every digit in
    /// a cell as wide as the widest digit of the font.
    pub fn tabular_numbers(&self, cursor: &mut Cursor) -> (out: Vec<PositionedGlyph>)
        requires
            old(cursor).in_range(),
        ensures
            is_tabular(
                self@,
                self.font().font.spec_digits(),
                self.font().font.spec_digit_width() as int,
                old(cursor).x as int,
                old(cursor).y as int,
                out@,
                final(cursor).x as int,
                final(cursor).y as int,
            ),
            -0x1_0000_0000 * usize::MAX <= old(cursor).x - final(cursor).x <= 0x1_0000_0000
                * usize::MAX,
    {
        let (digits, digit_width) = self.font.font.digit_metrics();
        layout_tabular_numbers(&self.glyphs, cursor, &digits, digit_width)
    }

    /// Returns the width of the run in font units.
    pub fn width(&self) -> (w: i128)
        ensures
            w == spec_width(self@),
            -0x8000_0000 * usize::MAX <= w <= 0x8000_0000 * usize::MAX,
    {
        layout::width(&self.glyphs)
    }

    /// Gives up the run and hands out its glyphs.
    pub fn into_glyphs(self) -> (glyphs: Vec<ShapedGlyph>)
        ensures
            glyphs@ == self@,
    {
        self.glyphs
    }
}

/// What is drawn for one glyph: the layers kept in a slot of the glyph
/// cache, each filled with a shader of its own, all at one position.
pub struct GlyphFill {
    /// The slot of the glyph cache that holds the layers.
    pub slot: usize,
    /// The horizontal position of the glyph, in half font units.
    pub x: i128,
    /// The vertical position of the glyph, in half font units.
    pub y: i128,
    /// For every layer, in order, the shader it is filled with.
    pub shaders: Vec<Shader>,
}

/// Whether `used` is the shader a layer is filled with: the tint of the
/// layer if it has one, and the shader of the text if it has none.
pub open spec fn is_layer_shader(tint: Option<Color>, shader: Shader, used: Shader) -> bool {
    match tint {
        Some(color) => used matches Shader::SolidColor(rgba) && rgba@ == spec_decode_color(color),
        None => used == shader,
    }
}

/// Whether `fill` draws the glyph `glyph` from the cache `cache` with the
/// shader `shader`.
pub open spec fn is_glyph_fill<P>(
    cache: &GlyphCache<P>,
    glyph: PositionedGlyph,
    shader: Shader,
    fill: GlyphFill,
) -> bool {
    &&& cache.contains(glyph.id)
    &&& fill.slot == cache.spec_slot(glyph.id)
    &&& fill.slot < cache.spec_len()
    &&& fill.x == glyph.x
    &&& fill.y == glyph.y
    &&& fill.shaders@.len() == cache.spec_layers(fill.slot as int).len()
    &&& forall|l: int|
        0 <= l < fill.shaders@.len() ==> is_layer_shader(
            cache.spec_layers(fill.slot as int)[l].0,
            shader,
            #[trigger] fill.shaders@[l],
        )
}

/// Chooses the shader of every layer of a glyph.
fn layer_shaders<P>(layers: &Vec<Layer<P>>, shader: Shader) -> (shaders: Vec<Shader>)
    ensures
        shaders@.len() == layers@.len(),
        forall|l: int|
            0 <= l < shaders@.len() ==> is_layer_shader(layers@[l].0, shader, #[trigger] shaders@[l]),
{
    let mut shaders: Vec<Shader> = Vec::new();
    let mut l: usize = 0;
    while l < layers.len()
        invariant
            0 <= l <= layers.len(),
            shaders@.len() == l,
            forall|k: int|
                0 <= k < l ==> is_layer_shader(layers@[k].0, shader, #[trigger] shaders@[k]),
        decreases layers.len() - l,
    {
        let used = match &layers[l].0 {
            Some(color) => solid(color),
            None => shader,
        };
        shaders.push(used);
        l = l + 1;
    }
    shaders
}

/// Turns a layout into what is drawn: for every glyph, in order, the
/// layers of its slot in the glyph cache and their shaders.
///
/// A glyph that is drawn for the first time is built by `build` and
/// cached with the layers that `build` returned; no other glyph is cached.
/// A layer with a tint of its own is filled with that tint, any other layer
/// with the shader of the text. Nothing that was cached before moves or
/// changes.
pub fn render<P, F: Fn(u32) -> Vec<Layer<P>>>(
    layout: &Vec<PositionedGlyph>,
    shader: Shader,
    glyph_cache: &mut GlyphCache<P>,
    build: &F,
) -> (fills: Vec<GlyphFill>)
    requires
        old(glyph_cache).wf(),
        forall|glyph: u32| call_requires(*build, (glyph,)),
    ensures
        final(glyph_cache).wf(),
        fills@.len() == layout@.len(),
        forall|k: int|
            0 <= k < fills@.len() ==> is_glyph_fill(
                final(glyph_cache),
                layout@[k],
                shader,
                #[trigger] fills@[k],
            ),
        old(glyph_cache).spec_len() <= final(glyph_cache).spec_len(),
        forall|glyph: u32| #[trigger]
            old(glyph_cache).contains(glyph) ==> final(glyph_cache).contains(glyph)
                && final(glyph_cache).spec_slot(glyph) == old(glyph_cache).spec_slot(glyph),
        forall|s: int|
            0 <= s < old(glyph_cache).spec_len() ==> #[trigger] final(glyph_cache).spec_layers(s)
                == old(glyph_cache).spec_layers(s),
        forall|k: int|
            0 <= k < layout@.len() && !old(glyph_cache).contains((#[trigger] layout@[k]).id)
                ==> final(glyph_cache).is_built_by(build, layout@[k].id),
        forall|glyph: u32| #[trigger]
            final(glyph_cache).contains(glyph) ==> old(glyph_cache).contains(glyph) || exists|
                k: int,
            |
                0 <= k < layout@.len() && (#[trigger] layout@[k]).id == glyph,
{
    let mut fills: Vec<GlyphFill> = Vec::new();
    let mut k: usize = 0;
    while k < layout.len()
        invariant
            0 <= k <= layout.len(),
            glyph_cache.wf(),
            forall|glyph: u32| call_requires(*build, (glyph,)),
            fills@.len() == k,
            forall|j: int|
                0 <= j < k ==> is_glyph_fill(glyph_cache, layout@[j], shader, #[trigger] fills@[j]),
            old(glyph_cache).spec_len() <= glyph_cache.spec_len(),
            forall|glyph: u32| #[trigger]
                old(glyph_cache).contains(glyph) ==> glyph_cache.contains(glyph)
                    && glyph_cache.spec_slot(glyph) == old(glyph_cache).spec_slot(glyph),
            forall|s: int|
                0 <= s < old(glyph_cache).spec_len() ==> #[trigger] glyph_cache.spec_layers(s)
                    == old(glyph_cache).spec_layers(s),
            forall|glyph: u32| #[trigger]
                glyph_cache.contains(glyph) ==> old(glyph_cache).contains(glyph) || exists|j: int|
                    0 <= j < k && (#[trigger] layout@[j]).id == glyph,
            forall|glyph: u32| #[trigger]
                glyph_cache.contains(glyph) && !old(glyph_cache).contains(glyph)
                    ==> glyph_cache.is_built_by(build, glyph),
        decreases layout.len() - k,
    {
        let ghost before = *glyph_cache;
        let glyph: PositionedGlyph = layout[k];
        let slot: usize = glyph_cache.lookup_or_insert(glyph.id, build);
        let shaders = layer_shaders(glyph_cache.layers(slot), shader);
        proof {
            before.lemma_slots_in_range();
            assert forall|g: u32| #[trigger]
                glyph_cache.contains(g) implies old(glyph_cache).contains(g) || exists|j: int|
                0 <= j < k + 1 && (#[trigger] layout@[j]).id == g by {
                if g == glyph.id {
                    assert(layout@[k as int].id == g);
                } else {
                    assert(before.contains(g));
                    if !old(glyph_cache).contains(g) {
                        let j = choose|j: int| 0 <= j < k && (#[trigger] layout@[j]).id == g;
                        assert(0 <= j < k + 1 && layout@[j].id == g);
                    }
                }
            }
            assert forall|g: u32| #[trigger]
                glyph_cache.contains(g) && !old(glyph_cache).contains(
                    g,
                ) implies glyph_cache.is_built_by(build, g) by {
                if before.contains(g) {
                    assert(before.is_built_by(build, g));
                    let built = choose|built: Vec<Layer<P>>| #[trigger]
                        call_ensures(*build, (g,), built) && before.spec_layers(
                            before.spec_slot(g) as int,
                        ) == built@;
                    assert(glyph_cache.spec_slot(g) == before.spec_slot(g));
                    assert(glyph_cache.spec_layers(before.spec_slot(g) as int)
                        == before.spec_layers(before.spec_slot(g) as int));
                    assert(call_ensures(*build, (g,), built) && glyph_cache.spec_layers(
                        glyph_cache.spec_slot(g) as int,
                    ) == built@);
                }
            }
            assert forall|j: int| 0 <= j < k implies is_glyph_fill(
                glyph_cache,
                layout@[j],
                shader,
                #[trigger] fills@[j],
            ) by {
                assert(is_glyph_fill(&before, layout@[j], shader, fills@[j]));
                assert(before.contains(layout@[j].id));
            }
        }
        fills.push(GlyphFill { slot, x: glyph.x, y: glyph.y, shaders });
        k = k + 1;
    }
    proof {
        assert forall|j: int|
            0 <= j < layout@.len() && !old(glyph_cache).contains(
                (#[trigger] layout@[j]).id,
            ) implies glyph_cache.is_built_by(build, layout@[j].id) by {
            assert(is_glyph_fill(glyph_cache, layout@[j], shader, fills@[j]));
        }
    }
    fills
}

} // verus!
