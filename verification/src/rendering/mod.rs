//! The renderer: coordinate constants, the size every component asks for,
//! and the extent of a whole layout.
//!
//! Component space has its origin at a component's top left corner, y grows
//! downwards, and one unit is the height of a default row. All lengths in
//! this module are counted in steps of 1/120 of that unit, the coarsest grid
//! on which every layout constant and a pseudo pixel (1/24) is a whole
//! number.

pub mod component;
pub mod font;
pub mod icon;

use self::font::layout::{
    coordinate_in_range, is_left_aligned, is_right_aligned, is_tabular, centered_start,
    spec_width, sum_y, tabular_tail, Cursor, PositionedGlyph,
};
use self::font::glyph_cache::GlyphCache;
use self::font::{tabular_feature, Font, ScaledFont};
use self::icon::IconCache;
use crate::layout::{ComponentState, LayoutState};
use crate::settings::{
    is_same_font, same_font, Color, FontStretch, FontStyle, FontWeight, Gradient, LayoutDirection,
};
use crate::whitespace::{trim, trimmed};
use vstd::prelude::*;

verus! {

/// The number of steps that make up one unit of component space.
pub const STEPS_PER_UNIT: u64 = 120;

/// Horizontal padding between a component's edge and its content (0.35).
pub const PADDING: u64 = 42;

/// The padding on both sides taken together (0.7).
pub const BOTH_PADDINGS: u64 = 84;

/// The height of a component that shows a single row (1.0).
pub const DEFAULT_COMPONENT_HEIGHT: u64 = 120;

/// The size of ordinary text (0.8).
pub const DEFAULT_TEXT_SIZE: u64 = 96;

/// How far ordinary text rises above its baseline (0.6).
pub const DEFAULT_TEXT_ASCENT: u64 = 72;

/// How far ordinary text sinks below its baseline (0.2).
pub const DEFAULT_TEXT_DESCENT: u64 = 24;

/// What a default row leaves above and below its text, together (0.2).
pub const BOTH_VERTICAL_PADDINGS: u64 = 24;

/// What a default row leaves above its text (0.1).
pub const VERTICAL_PADDING: u64 = 12;

/// The height of a component that stacks a label above a value (1.8).
pub const TWO_ROW_HEIGHT: u64 = 216;

/// The baseline of text aligned to the top of a component (0.7).
pub const TEXT_ALIGN_TOP: i64 = 84;

/// The baseline of text aligned to the bottom, relative to the height (-0.3).
pub const TEXT_ALIGN_BOTTOM: i64 = -36;

/// The baseline offset that centers text around a line (0.2).
pub const TEXT_ALIGN_CENTER: i64 = 24;

/// The thickness of a separator (0.1).
pub const SEPARATOR_THICKNESS: u64 = 12;

/// The thickness of a thin separator (0.05).
pub const THIN_SEPARATOR_THICKNESS: u64 = 6;

/// One pseudo pixel, the grain of sizes stored in layout settings (1/24).
pub const PSEUDO_PIXELS: u64 = 5;

/// The width a vertical layout is given when nothing else decides it (11.5).
pub const DEFAULT_VERTICAL_WIDTH: u64 = 1380;

/// The width of one column of the splits component (2.75).
pub const COLUMN_WIDTH: u64 = 330;

/// A color as a backend takes it: the bit patterns of its red, green, blue
/// and alpha channels, in that order.
pub type Rgba = [u32; 4];

/// What a path is filled with.
#[derive(Clone, Copy, Debug, PartialEq, Eq)]
pub enum Shader {
    /// A single color.
    SolidColor(Rgba),
    /// A blend from the first color at the top of the path's bounding box
    /// to the second at its bottom.
    VerticalGradient(Rgba, Rgba),
    /// A blend from the first color on the left of the path's bounding box
    /// to the second on its right.
    HorizontalGradient(Rgba, Rgba),
}

/// The four channels of a color, in the order a backend takes them.
pub open spec fn spec_decode_color(color: Color) -> Seq<u32> {
    seq![color.red, color.green, color.blue, color.alpha]
}

/// Unpacks a color into its four channels.
pub fn decode_color(color: &Color) -> (rgba: Rgba)
    ensures
        rgba@ == spec_decode_color(*color),
{
    let rgba: Rgba = [color.red, color.green, color.blue, color.alpha];
    assert(rgba@ =~= spec_decode_color(*color));
    rgba
}

/// The shader that fills a path with one color.
pub fn solid(color: &Color) -> (shader: Shader)
    ensures
        shader matches Shader::SolidColor(rgba) && rgba@ == spec_decode_color(*color),
{
    Shader::SolidColor(decode_color(color))
}

/// Whether `shader` is what a gradient is drawn with.
pub open spec fn is_shader_of(gradient: Gradient, shader: Shader) -> bool {
    match gradient {
        Gradient::Transparent => false,
        Gradient::Plain(plain) => shader matches Shader::SolidColor(c) && c@ == spec_decode_color(
            plain,
        ),
        Gradient::Vertical(top, bottom) => shader matches Shader::VerticalGradient(t, b) && t@
            == spec_decode_color(top) && b@ == spec_decode_color(bottom),
        Gradient::Horizontal(left, right) => shader matches Shader::HorizontalGradient(l, r) && l@
            == spec_decode_color(left) && r@ == spec_decode_color(right),
    }
}

/// Turns a gradient into the shader it is drawn with. A transparent
/// gradient has none: nothing is drawn for it.
pub fn decode_gradient(gradient: &Gradient) -> (shader: Option<Shader>)
    ensures
        shader is None <==> *gradient == Gradient::Transparent,
        shader matches Some(s) ==> is_shader_of(*gradient, s),
{
    match gradient {
        Gradient::Transparent => None,
        Gradient::Horizontal(left, right) => Some(
            Shader::HorizontalGradient(decode_color(left), decode_color(right)),
        ),
        Gradient::Vertical(top, bottom) => Some(
            Shader::VerticalGradient(decode_color(top), decode_color(bottom)),
        ),
        Gradient::Plain(plain) => Some(Shader::SolidColor(decode_color(plain))),
    }
}

/// The width a component asks for in a horizontal layout. It is a share of
/// the whole width rather than a width: see [`Renderer::render`].
pub open spec fn spec_component_width(component: &ComponentState) -> int {
    match component {
        ComponentState::BlankSpace { size } => size * PSEUDO_PIXELS,
        ComponentState::DetailedTimer => 840,
        ComponentState::Graph(_) => 840,
        ComponentState::KeyValue(_) => 720,
        ComponentState::Separator => SEPARATOR_THICKNESS as int,
        ComponentState::Splits { splits, display_two_rows, column_labels } => splits * (2
            * STEPS_PER_UNIT + 2 * COLUMN_WIDTH),
        ComponentState::Text(_) => 720,
        ComponentState::Timer { height } => 990,
        ComponentState::Title => 960,
    }
}

/// The height of a component in a vertical layout.
pub open spec fn spec_component_height(component: &ComponentState) -> int {
    match component {
        ComponentState::BlankSpace { size } => size * PSEUDO_PIXELS,
        ComponentState::DetailedTimer => 300,
        ComponentState::Graph(state) => state.height * PSEUDO_PIXELS,
        ComponentState::KeyValue(state) => if state.display_two_rows {
            TWO_ROW_HEIGHT as int
        } else {
            DEFAULT_COMPONENT_HEIGHT as int
        },
        ComponentState::Separator => SEPARATOR_THICKNESS as int,
        ComponentState::Splits { splits, display_two_rows, column_labels } => splits * (if
            *display_two_rows {
            TWO_ROW_HEIGHT as int
        } else {
            DEFAULT_COMPONENT_HEIGHT as int
        }) + (if *column_labels {
            DEFAULT_COMPONENT_HEIGHT as int
        } else {
            0
        }),
        ComponentState::Text(state) => if state.display_two_rows {
            TWO_ROW_HEIGHT as int
        } else {
            DEFAULT_COMPONENT_HEIGHT as int
        },
        ComponentState::Timer { height } => height * PSEUDO_PIXELS,
        ComponentState::Title => TWO_ROW_HEIGHT as int,
    }
}

/// Computes the width a component asks for in a horizontal layout. The
/// splits component counts two columns, however many it shows.
pub fn component_width(component: &ComponentState) -> (width: u64)
    ensures
        width == spec_component_width(component),
        width <= 0x400_0000_0000,
{
    match component {
        ComponentState::BlankSpace { size } => (*size as u64) * PSEUDO_PIXELS,
        ComponentState::DetailedTimer => 840,
        ComponentState::Graph(_) => 840,
        ComponentState::KeyValue(_) => 720,
        ComponentState::Separator => SEPARATOR_THICKNESS,
        ComponentState::Splits { splits, display_two_rows: _, column_labels: _ } => {
            let column_count: u64 = 2;
            let split_width: u64 = 2 * STEPS_PER_UNIT + column_count * COLUMN_WIDTH;
            assert(split_width == 900);
            (*splits as u64) * split_width
        },
        ComponentState::Text(_) => 720,
        ComponentState::Timer { height: _ } => 990,
        ComponentState::Title => 960,
    }
}

/// Computes the height of a component in a vertical layout.
pub fn component_height(component: &ComponentState) -> (height: u64)
    ensures
        height == spec_component_height(component),
        height <= 0x400_0000_0000,
{
    match component {
        ComponentState::BlankSpace { size } => (*size as u64) * PSEUDO_PIXELS,
        ComponentState::DetailedTimer => 300,
        ComponentState::Graph(state) => (state.height as u64) * PSEUDO_PIXELS,
        ComponentState::KeyValue(state) => {
            if state.display_two_rows {
                TWO_ROW_HEIGHT
            } else {
                DEFAULT_COMPONENT_HEIGHT
            }
        },
        ComponentState::Separator => SEPARATOR_THICKNESS,
        ComponentState::Splits { splits, display_two_rows, column_labels } => {
            let rows: u64 = if *display_two_rows {
                (*splits as u64) * TWO_ROW_HEIGHT
            } else {
                (*splits as u64) * DEFAULT_COMPONENT_HEIGHT
            };
            let labels: u64 = if *column_labels {
                DEFAULT_COMPONENT_HEIGHT
            } else {
                0
            };
            rows + labels
        },
        ComponentState::Text(state) => {
            if state.display_two_rows {
                TWO_ROW_HEIGHT
            } else {
                DEFAULT_COMPONENT_HEIGHT
            }
        },
        ComponentState::Timer { height } => (*height as u64) * PSEUDO_PIXELS,
        ComponentState::Title => TWO_ROW_HEIGHT,
    }
}

/// The extent a component has along the direction of a layout: its height
/// in a vertical layout, the width it asks for in a horizontal one.
pub open spec fn spec_component_extent(
    component: &ComponentState,
    direction: LayoutDirection,
) -> int {
    match direction {
        LayoutDirection::Vertical => spec_component_height(component),
        LayoutDirection::Horizontal => spec_component_width(component),
    }
}

/// The extents of the first `n` components taken together.
pub open spec fn spec_extent_before(
    components: Seq<ComponentState>,
    direction: LayoutDirection,
    n: int,
) -> int
    decreases n,
{
    if n <= 0 {
        0
    } else {
        spec_extent_before(components, direction, n - 1) + spec_component_extent(
            &components[n - 1],
            direction,
        )
    }
}

/// The extent of a whole layout: the height of a vertical layout, the
/// width that the components of a horizontal one ask for together.
pub open spec fn spec_total_extent(
    components: Seq<ComponentState>,
    direction: LayoutDirection,
) -> int {
    spec_extent_before(components, direction, components.len() as int)
}

/// Computes the extent of a component along the direction of a layout.
pub fn component_extent(component: &ComponentState, direction: LayoutDirection) -> (extent: u64)
    ensures
        extent == spec_component_extent(component, direction),
        extent <= 0x400_0000_0000,
{
    match direction {
        LayoutDirection::Vertical => component_height(component),
        LayoutDirection::Horizontal => component_width(component),
    }
}

/// Where every component of a layout starts and where the layout ends: for
/// each component the extent of all components before it, and last the
/// extent of the whole layout.
pub fn component_origins(components: &Vec<ComponentState>, direction: LayoutDirection) -> (origins:
    Vec<u128>)
    ensures
        origins.len() == components.len() + 1,
        forall|i: int|
            0 <= i <= components.len() ==> #[trigger] origins[i] == spec_extent_before(
                components@,
                direction,
                i,
            ),
{
    let mut origins: Vec<u128> = Vec::new();
    let mut total: u128 = 0;
    let mut i: usize = 0;
    origins.push(total);
    while i < components.len()
        invariant
            0 <= i <= components.len(),
            total == spec_extent_before(components@, direction, i as int),
            total <= i * 0x400_0000_0000,
            origins.len() == i + 1,
            forall|j: int|
                0 <= j <= i ==> #[trigger] origins[j] == spec_extent_before(
                    components@,
                    direction,
                    j,
                ),
        decreases components.len() - i,
    {
        total = total + component_extent(&components[i], direction) as u128;
        i = i + 1;
        origins.push(total);
    }
    origins
}

/// Computes the extent of a whole layout.
pub fn total_extent(components: &Vec<ComponentState>, direction: LayoutDirection) -> (total: u128)
    ensures
        total == spec_total_extent(components@, direction),
{
    let origins = component_origins(components, direction);
    origins[components.len()]
}

/// The extent of the layout that was rendered last, with its direction.
#[derive(Clone, Copy, Debug, PartialEq, Eq, Structural)]
pub enum CachedSize {
    /// The height of a vertical layout.
    Vertical(u128),
    /// The width the components of a horizontal layout asked for.
    Horizontal(u128),
}

/// A change of the surface that the renderer asks its host for, because
/// the layout has changed its shape. The extents are in steps; the host
/// turns them into pixels with the resolution it rendered at.
#[derive(Clone, Copy, Debug, PartialEq, Eq, Structural)]
pub enum Resize {
    /// A vertical layout changed its height: the surface keeps its width,
    /// and its height changes by the ratio of `to` to `from`.
    Height {
        /// The height of the layout before.
        from: u128,
        /// The height of the layout now.
        to: u128,
    },
    /// A horizontal layout changed its width: the surface keeps its height,
    /// and its width changes by the ratio of `to` to `from`.
    Width {
        /// The width of the layout before.
        from: u128,
        /// The width of the layout now.
        to: u128,
    },
    /// A horizontal layout became vertical. The height of the surface was
    /// that of two rows, which gives the size of a step: the surface
    /// becomes `height` high and [`DEFAULT_VERTICAL_WIDTH`] wide.
    ToVertical {
        /// The height of the layout now.
        height: u128,
    },
    /// A vertical layout became horizontal. The height of the surface was
    /// that of the layout before, which gives the size of a step: the
    /// surface becomes [`TWO_ROW_HEIGHT`] high and `width` wide.
    ToHorizontal {
        /// The height of the layout before.
        height_before: u128,
        /// The width of the layout now.
        width: u128,
    },
}

/// The size a layout of the given direction and extent is remembered as.
pub open spec fn remembered(direction: LayoutDirection, extent: u128) -> CachedSize {
    match direction {
        LayoutDirection::Vertical => CachedSize::Vertical(extent),
        LayoutDirection::Horizontal => CachedSize::Horizontal(extent),
    }
}

/// The change of the surface that is asked for when a layout of the given
/// direction and extent follows the one that was remembered. The first
/// layout never asks for one, nor does a layout of the same shape as the
/// one before.
pub open spec fn spec_resize(
    cached: Option<CachedSize>,
    direction: LayoutDirection,
    extent: u128,
) -> Option<Resize> {
    match (cached, direction) {
        (None, _) => None,
        (Some(CachedSize::Vertical(before)), LayoutDirection::Vertical) => if before != extent {
            Some(Resize::Height { from: before, to: extent })
        } else {
            None
        },
        (Some(CachedSize::Horizontal(before)), LayoutDirection::Horizontal) => if before
            != extent {
            Some(Resize::Width { from: before, to: extent })
        } else {
            None
        },
        (Some(CachedSize::Horizontal(_)), LayoutDirection::Vertical) => Some(
            Resize::ToVertical { height: extent },
        ),
        (Some(CachedSize::Vertical(before)), LayoutDirection::Horizontal) => Some(
            Resize::ToHorizontal { height_before: before, width: extent },
        ),
    }
}

/// Remembers the shape of the layout that is about to be rendered and
/// tells which change of the surface to ask for, if any.
pub fn update_cached_size(
    cached: &mut Option<CachedSize>,
    direction: LayoutDirection,
    extent: u128,
) -> (resize: Option<Resize>)
    ensures
        resize == spec_resize(*old(cached), direction, extent),
        *final(cached) == Some(remembered(direction, extent)),
{
    let resize = match (*cached, direction) {
        (None, _) => None,
        (Some(CachedSize::Vertical(before)), LayoutDirection::Vertical) => {
            if before != extent {
                Some(Resize::Height { from: before, to: extent })
            } else {
                None
            }
        },
        (Some(CachedSize::Horizontal(before)), LayoutDirection::Horizontal) => {
            if before != extent {
                Some(Resize::Width { from: before, to: extent })
            } else {
                None
            }
        },
        (Some(CachedSize::Horizontal(_)), LayoutDirection::Vertical) => Some(
            Resize::ToVertical { height: extent },
        ),
        (Some(CachedSize::Vertical(before)), LayoutDirection::Horizontal) => Some(
            Resize::ToHorizontal { height_before: before, width: extent },
        ),
    };
    *cached = Some(
        match direction {
            LayoutDirection::Vertical => CachedSize::Vertical(extent),
            LayoutDirection::Horizontal => CachedSize::Horizontal(extent),
        },
    );
    resize
}

/// Rendering the same layout again never asks for a change of the surface.
pub proof fn lemma_same_layout_keeps_size(direction: LayoutDirection, extent: u128)
    ensures
        spec_resize(Some(remembered(direction, extent)), direction, extent) is None,
{
}

/// The run a font shapes a text into once the white space around the text
/// is taken off.
pub open spec fn spec_text_run(font: &Font, text: Seq<char>) -> Seq<font::layout::ShapedGlyph> {
    font.spec_shape(Seq::empty(), trimmed(text))
}

/// The run a font shapes a text of numbers into once the white space
/// around the text is taken off.
pub open spec fn spec_number_run(font: &Font, text: Seq<char>) -> Seq<font::layout::ShapedGlyph> {
    font.spec_shape(seq![tabular_feature()], trimmed(text))
}

/// The width of a text, in half font units.
pub open spec fn spec_measure_text(font: &Font, text: Seq<char>) -> int {
    2 * spec_width(spec_text_run(font, text))
}

/// The width of a text of numbers in a tabular layout, in half font units.
pub open spec fn spec_measure_numbers(font: &Font, text: Seq<char>) -> int {
    tabular_tail(
        spec_number_run(font, text),
        font.spec_digits(),
        font.spec_digit_width() as int,
        0,
    )
}

/// Shapes a text once and returns its width, in half font units.
pub fn measure_text(font: ScaledFont<'_>, text: &str) -> (width: i128)
    ensures
        width == spec_measure_text(font.font, text@),
{
    let glyphs = font.shape(trim(text));
    2 * glyphs.width()
}

/// Shapes a text of numbers once and returns the width of its tabular
/// layout, in half font units.
pub fn measure_numbers(font: ScaledFont<'_>, text: &str) -> (width: i128)
    ensures
        width == spec_measure_numbers(font.font, text@),
{
    let mut cursor = Cursor::new(0, 0);
    let glyphs = font.shape_tabular_numbers(trim(text));
    let _ = glyphs.tabular_numbers(&mut cursor);
    -cursor.x
}

/// Lays a text out from `pos` to the right, cut short and closed with an
/// ellipsis where it would end to the right of `max_x`. Returns the glyphs
/// to draw and the cursor after the text that was drawn.
pub fn render_text_ellipsis(font: ScaledFont<'_>, text: &str, pos: Cursor, max_x: i128) -> (r: (
    Vec<PositionedGlyph>,
    Cursor,
))
    requires
        pos.in_range(),
        coordinate_in_range(max_x as int),
    ensures
        is_left_aligned(
            spec_text_run(font.font, text@),
            pos.x as int,
            pos.y as int,
            max_x as int,
            font.font.spec_ellipsis(),
            font.font.spec_ellipsis_advance(),
            r.0@,
            r.1.x as int,
            r.1.y as int,
        ),
{
    let mut cursor = pos;
    let glyphs = font.shape(trim(text));
    let out = glyphs.left_aligned(&mut cursor, max_x);
    (out, cursor)
}

/// Where a text that is centered around `pos` starts.
pub open spec fn spec_centered_origin(
    font: &Font,
    text: Seq<char>,
    min_x: int,
    max_x: int,
    pos: Cursor,
) -> (int, int) {
    let run = spec_text_run(font, text);
    (centered_start(run, pos.x as int, min_x, max_x), pos.y - sum_y(run, run.len() as int))
}

/// Lays a text out around `pos`, inside the span from `min_x` to `max_x`.
/// Returns the glyphs to draw and the cursor after the text that was drawn.
pub fn render_text_centered(
    font: ScaledFont<'_>,
    text: &str,
    min_x: i128,
    max_x: i128,
    pos: Cursor,
) -> (r: (Vec<PositionedGlyph>, Cursor))
    requires
        pos.in_range(),
        coordinate_in_range(min_x as int),
        coordinate_in_range(max_x as int),
    ensures
        is_left_aligned(
            spec_text_run(font.font, text@),
            spec_centered_origin(font.font, text@, min_x as int, max_x as int, pos).0,
            spec_centered_origin(font.font, text@, min_x as int, max_x as int, pos).1,
            max_x as int,
            font.font.spec_ellipsis(),
            font.font.spec_ellipsis_advance(),
            r.0@,
            r.1.x as int,
            r.1.y as int,
        ),
{
    let mut cursor = pos;
    let glyphs = font.shape(trim(text));
    let out = glyphs.centered(&mut cursor, min_x, max_x);
    (out, cursor)
}

/// Lays a text out so that it ends at `pos`. Returns the glyphs to draw and
/// the cursor at the start of the text.
pub fn render_text_right_align(font: ScaledFont<'_>, text: &str, pos: Cursor) -> (r: (
    Vec<PositionedGlyph>,
    Cursor,
))
    requires
        pos.in_range(),
    ensures
        is_right_aligned(
            spec_text_run(font.font, text@),
            pos.x as int,
            pos.y as int,
            r.0@,
            r.1.x as int,
            r.1.y as int,
        ),
{
    let mut cursor = pos;
    let glyphs = font.shape(trim(text));
    let out = glyphs.right_aligned(&mut cursor);
    (out, cursor)
}

/// Lays a text out centered between `min_x` and `max_x` or from `pos` to
/// the right, as `centered` says.
pub fn render_text_align(
    font: ScaledFont<'_>,
    text: &str,
    min_x: i128,
    max_x: i128,
    pos: Cursor,
    centered: bool,
) -> (r: (Vec<PositionedGlyph>, Cursor))
    requires
        pos.in_range(),
        coordinate_in_range(min_x as int),
        coordinate_in_range(max_x as int),
    ensures
        is_left_aligned(
            spec_text_run(font.font, text@),
            if centered {
                spec_centered_origin(font.font, text@, min_x as int, max_x as int, pos).0
            } else {
                pos.x as int
            },
            if centered {
                spec_centered_origin(font.font, text@, min_x as int, max_x as int, pos).1
            } else {
                pos.y as int
            },
            max_x as int,
            font.font.spec_ellipsis(),
            font.font.spec_ellipsis_advance(),
            r.0@,
            r.1.x as int,
            r.1.y as int,
        ),
{
    if centered {
        render_text_centered(font, text, min_x, max_x, pos)
    } else {
        render_text_ellipsis(font, text, pos, max_x)
    }
}

/// Lays a text of numbers out so that it ends at `pos`, every digit in a
/// cell of the same width. Returns the glyphs to draw and the cursor at the
/// start of the text. Times are laid out with the font for times.
pub fn render_numbers(font: ScaledFont<'_>, text: &str, pos: Cursor) -> (r: (
    Vec<PositionedGlyph>,
    Cursor,
))
    requires
        pos.in_range(),
    ensures
        is_tabular(
            spec_number_run(font.font, text@),
            font.font.spec_digits(),
            font.font.spec_digit_width() as int,
            pos.x as int,
            pos.y as int,
            r.0@,
            r.1.x as int,
            r.1.y as int,
        ),
        -0x1_0000_0000 * usize::MAX <= pos.x - r.1.x <= 0x1_0000_0000 * usize::MAX,
{
    let mut cursor = pos;
    let glyphs = font.shape_tabular_numbers(trim(text));
    let out = glyphs.tabular_numbers(&mut cursor);
    (out, cursor)
}

/// Lays the text of a timer out so that it ends at `pos`: as
/// [`render_numbers`] does, and meant for the font of the timer.
pub fn render_timer(font: ScaledFont<'_>, text: &str, pos: Cursor) -> (r: (
    Vec<PositionedGlyph>,
    Cursor,
))
    requires
        pos.in_range(),
    ensures
        is_tabular(
            spec_number_run(font.font, text@),
            font.font.spec_digits(),
            font.font.spec_digit_width() as int,
            pos.x as int,
            pos.y as int,
            r.0@,
            r.1.x as int,
            r.1.y as int,
        ),
{
    render_numbers(font, text, pos)
}

/// Whether the candidate `choice` is the first of the widest among the
/// first `n` candidates: none of them is wider, and none before it is as
/// wide.
pub open spec fn is_longest(widths: Seq<int>, n: int, choice: int) -> bool {
    &&& 0 <= choice < n
    &&& forall|j: int| 0 <= j < n ==> #[trigger] widths[j] <= widths[choice]
    &&& forall|j: int| 0 <= j < choice ==> #[trigger] widths[j] < widths[choice]
}

/// Whether the candidate `choice` is the first of the widest among those
/// of the first `n` candidates that fit into `max_width`: it fits, none
/// that fits is wider, and none that fits and comes before it is as wide.
pub open spec fn is_longest_fitting(
    widths: Seq<int>,
    max_width: int,
    n: int,
    choice: int,
) -> bool {
    &&& 0 <= choice < n
    &&& widths[choice] <= max_width
    &&& forall|j: int|
        0 <= j < n && #[trigger] widths[j] <= max_width ==> widths[j] <= widths[choice]
    &&& forall|j: int|
        0 <= j < choice && #[trigger] widths[j] <= max_width ==> widths[j] < widths[choice]
}

/// Whether any of the first `n` candidates fits into `max_width`.
pub open spec fn some_fits(widths: Seq<int>, max_width: int, n: int) -> bool {
    exists|j: int| 0 <= j < n && #[trigger] widths[j] <= max_width
}

/// Whether `choice` is the candidate to show in a span of `max_width`: the
/// longest that fits, and the longest of all, for the caller to cut short,
/// where none fits. Among several of that width it is the first.
pub open spec fn is_abbreviation_choice(widths: Seq<int>, max_width: int, choice: int) -> bool {
    if some_fits(widths, max_width, widths.len() as int) {
        is_longest_fitting(widths, max_width, widths.len() as int, choice)
    } else {
        is_longest(widths, widths.len() as int, choice)
    }
}

/// There is only one candidate to choose.
pub proof fn lemma_abbreviation_choice_is_unique(
    widths: Seq<int>,
    max_width: int,
    a: int,
    b: int,
)
    requires
        is_abbreviation_choice(widths, max_width, a),
        is_abbreviation_choice(widths, max_width, b),
    ensures
        a == b,
{
    if a < b {
        assert(widths[a] < widths[b]);
        assert(widths[b] <= widths[a]);
    } else if b < a {
        assert(widths[b] < widths[a]);
        assert(widths[a] <= widths[b]);
    }
}

/// The widths of a list, as integers.
pub open spec fn widths_of(widths: Seq<i128>) -> Seq<int> {
    Seq::new(widths.len(), |i: int| widths[i] as int)
}

/// The texts of a list.
pub open spec fn texts_of(texts: Seq<String>) -> Seq<Seq<char>> {
    Seq::new(texts.len(), |i: int| texts[i]@)
}

/// Chooses among candidates of the given widths the one to show in a span
/// of `max_width`: see [`is_abbreviation_choice`]. There is nothing to
/// choose where there is no candidate.
pub fn pick_abbreviation(widths: &Vec<i128>, max_width: i128) -> (choice: Option<usize>)
    ensures
        choice is Some <==> widths.len() > 0,
        choice matches Some(i) ==> is_abbreviation_choice(
            widths_of(widths@),
            max_width as int,
            i as int,
        ),
{
    let n: usize = widths.len();
    if n == 0 {
        return None;
    }
    let ghost w = widths_of(widths@);
    let mut total_longest: usize = 0;
    let mut within_longest: Option<usize> = if widths[0] <= max_width {
        Some(0)
    } else {
        None
    };
    let mut i: usize = 1;
    while i < n
        invariant
            n == widths.len(),
            1 <= i <= n,
            w == widths_of(widths@),
            is_longest(w, i as int, total_longest as int),
            match within_longest {
                Some(held) => is_longest_fitting(w, max_width as int, i as int, held as int),
                None => !some_fits(w, max_width as int, i as int),
            },
        decreases n - i,
    {
        let width: i128 = widths[i];
        proof {
            assert(w[i as int] == width);
        }
        if width <= max_width {
            match within_longest {
                Some(held) => {
                    assert(w[held as int] == widths[held as int]);
                    if width > widths[held] {
                        within_longest = Some(i);
                    }
                },
                None => {
                    within_longest = Some(i);
                },
            }
        }
        proof {
            assert(w[total_longest as int] == widths[total_longest as int]);
        }
        if width > widths[total_longest] {
            total_longest = i;
        }
        i = i + 1;
    }
    match within_longest {
        Some(held) => {
            assert(some_fits(w, max_width as int, n as int)) by {
                assert(w[held as int] <= max_width);
            }
            Some(held)
        },
        None => Some(total_longest),
    }
}

/// The widths of texts, in half font units.
pub open spec fn measured(font: &Font, texts: Seq<Seq<char>>) -> Seq<int> {
    Seq::new(texts.len(), |k: int| spec_measure_text(font, texts[k]))
}

/// Measures every candidate with the font and chooses the one to show in a
/// span of `max_width` half font units. Returns its place in the list.
pub fn choose_abbreviation(
    font: ScaledFont<'_>,
    abbreviations: &Vec<String>,
    max_width: i128,
) -> (choice: Option<usize>)
    ensures
        choice is Some <==> abbreviations.len() > 0,
        choice matches Some(i) ==> i < abbreviations.len() && is_abbreviation_choice(
            measured(font.font, texts_of(abbreviations@)),
            max_width as int,
            i as int,
        ),
{
    let mut widths: Vec<i128> = Vec::new();
    let mut i: usize = 0;
    while i < abbreviations.len()
        invariant
            0 <= i <= abbreviations.len(),
            widths.len() == i,
            forall|k: int|
                0 <= k < i ==> #[trigger] widths[k] == spec_measure_text(
                    font.font,
                    abbreviations[k]@,
                ),
        decreases abbreviations.len() - i,
    {
        widths.push(measure_text(font, abbreviations[i].as_str()));
        i = i + 1;
    }
    assert(widths_of(widths@) =~= measured(font.font, texts_of(abbreviations@)));
    pick_abbreviation(&widths, max_width)
}

/// One of the three fonts of a renderer, with everything that belongs to
/// it: the font the user asked for, the face that is used, the glyphs that
/// were drawn with it, and the built-in font to fall back on.
pub struct FontSlot<P> {
    /// The font the user asked for when the face was chosen. `None` stands
    /// for the built-in font.
    pub setting: Option<crate::settings::Font>,
    /// The face that is used.
    pub font: Font,
    /// The glyphs that were drawn with the face.
    pub glyph_cache: GlyphCache<P>,
    /// The bytes of the built-in font.
    pub default_data: Vec<u8>,
    /// The weight of the built-in font.
    pub default_weight: FontWeight,
}

impl<P> FontSlot<P> {
    /// The glyph cache is in order, and the built-in font can be loaded.
    pub open spec fn wf(&self) -> bool {
        &&& self.glyph_cache.wf()
        &&& Font::parses(
            self.default_data@,
            0,
            FontStyle::Normal,
            self.default_weight,
            FontStretch::Normal,
        )
    }

    /// Whether the face that is used is the built-in one.
    pub open spec fn uses_default(&self) -> bool {
        self.font.is_face(
            self.default_data@,
            0,
            FontStyle::Normal,
            self.default_weight,
            FontStretch::Normal,
        )
    }

    /// Creates a slot that uses the built-in font of the given weight.
    /// Returns `None` where the bytes of the built-in font cannot be loaded.
    pub fn new(default_data: &[u8], default_weight: FontWeight) -> (slot: Option<Self>)
        ensures
            slot is Some <==> Font::parses(
                default_data@,
                0,
                FontStyle::Normal,
                default_weight,
                FontStretch::Normal,
            ),
            slot matches Some(s) ==> {
                &&& s.wf()
                &&& s.uses_default()
                &&& s.setting is None
                &&& s.glyph_cache.spec_len() == 0
                &&& s.default_data@ == default_data@
                &&& s.default_weight == default_weight
            },
    {
        match Font::from_slice(
            default_data,
            0,
            FontStyle::Normal,
            default_weight,
            FontStretch::Normal,
        ) {
            None => None,
            Some(font) => Some(
                FontSlot {
                    setting: None,
                    font,
                    glyph_cache: GlyphCache::new(),
                    default_data: vstd::slice::slice_to_vec(default_data),
                    default_weight,
                },
            ),
        }
    }

    /// Whether `after` is this slot once it has followed the font that is
    /// asked for, with `load` to load fonts.
    ///
    /// Where the same font is asked for as before, nothing changes.
    /// Otherwise the slot remembers the font that is asked for, its glyph
    /// cache is empty, and its face is the one that `load` returned, or the
    /// built-in one where `load` returned none or no font is asked for.
    pub open spec fn follows<L: Fn(&crate::settings::Font) -> Option<Font>>(
        &self,
        requested: &Option<crate::settings::Font>,
        load: &L,
        after: &FontSlot<P>,
    ) -> bool {
        if same_font(&self.setting, requested) {
            *after == *self
        } else {
            &&& after.default_data == self.default_data
            &&& after.default_weight == self.default_weight
            &&& same_font(&after.setting, requested)
            &&& after.glyph_cache.spec_len() == 0
            &&& forall|glyph: u32| !after.glyph_cache.contains(glyph)
            &&& match requested {
                Some(font) => exists|loaded: Option<Font>| #[trigger]
                    call_ensures(*load, (font,), loaded) && match loaded {
                        Some(face) => after.font == face,
                        None => after.uses_default(),
                    },
                None => after.uses_default(),
            }
        }
    }

    /// Follows a change of the font the user asks for.
    ///
    /// Where the user asks for the same font as before, nothing happens.
    /// Otherwise the font is loaded by `load`, the built-in font takes its
    /// place where it cannot be loaded or none is asked for, the glyph cache
    /// is emptied, and the paths it owned are handed out to be released.
    pub fn update<L: Fn(&crate::settings::Font) -> Option<Font>>(
        &mut self,
        requested: &Option<crate::settings::Font>,
        load: &L,
    ) -> (freed: Vec<P>)
        requires
            old(self).wf(),
            forall|font: &crate::settings::Font| call_requires(*load, (font,)),
        ensures
            final(self).wf(),
            old(self).follows(requested, load, final(self)),
            freed@ == spec_freed(old(self), requested),
    {
        if is_same_font(&self.setting, requested) {
            return Vec::new();
        }
        let loaded: Option<Font> = match requested {
            Some(font) => load(font),
            None => None,
        };
        self.font = match loaded {
            Some(face) => face,
            None => Font::from_slice(
                self.default_data.as_slice(),
                0,
                FontStyle::Normal,
                self.default_weight,
                FontStretch::Normal,
            ).unwrap(),
        };
        let freed = self.glyph_cache.clear();
        self.setting = match requested {
            Some(font) => Some(font.duplicate()),
            None => None,
        };
        freed
    }
}

/// Whether a loader of fonts is steady: asked for the same font again, it
/// returns the same face again, or none again.
pub open spec fn is_steady<L: Fn(&crate::settings::Font) -> Option<Font>>(load: &L) -> bool {
    forall|font: &crate::settings::Font, first: Option<Font>, second: Option<Font>|
        #[trigger] call_ensures(*load, (font,), first) && #[trigger] call_ensures(
            *load,
            (font,),
            second,
        ) ==> first == second
}

/// Whether two font slots draw alike: they remember the same font, they
/// have the same built-in font, and they use the same face.
pub open spec fn same_face<P>(a: &FontSlot<P>, b: &FontSlot<P>) -> bool {
    &&& same_font(&a.setting, &b.setting)
    &&& a.default_data == b.default_data
    &&& a.default_weight == b.default_weight
    &&& a.font == b.font || (a.uses_default() && b.uses_default())
}

/// Whether two font slots are in the same state: they draw alike, and
/// their glyph caches hold the same glyphs in the same slots.
pub open spec fn same_slot<P>(a: &FontSlot<P>, b: &FontSlot<P>) -> bool {
    &&& same_face(a, b)
    &&& a.glyph_cache.spec_len() == b.glyph_cache.spec_len()
    &&& forall|glyph: u32| #[trigger] a.glyph_cache.contains(glyph) == b.glyph_cache.contains(glyph)
    &&& forall|glyph: u32| #[trigger]
        a.glyph_cache.contains(glyph) ==> a.glyph_cache.spec_slot(glyph)
            == b.glyph_cache.spec_slot(glyph)
    &&& forall|slot: int|
        0 <= slot < a.glyph_cache.spec_len() ==> #[trigger] a.glyph_cache.spec_layers(slot)
            == b.glyph_cache.spec_layers(slot)
}

/// With a steady loader, what a font slot is after it has followed a font
/// is decided by what it was before and by the font.
pub proof fn lemma_follows_is_determined<P, L: Fn(&crate::settings::Font) -> Option<Font>>(
    slot: &FontSlot<P>,
    requested: &Option<crate::settings::Font>,
    load: &L,
    first: &FontSlot<P>,
    second: &FontSlot<P>,
)
    requires
        is_steady(load),
        slot.follows(requested, load, first),
        slot.follows(requested, load, second),
    ensures
        same_slot(first, second),
{
    if !same_font(&slot.setting, requested) {
        if let Some(font) = requested {
            let a = choose|loaded: Option<Font>| #[trigger]
                call_ensures(*load, (font,), loaded) && match loaded {
                    Some(face) => first.font == face,
                    None => first.uses_default(),
                };
            let b = choose|loaded: Option<Font>| #[trigger]
                call_ensures(*load, (font,), loaded) && match loaded {
                    Some(face) => second.font == face,
                    None => second.uses_default(),
                };
            assert(a == b);
        }
    }
}

/// A font that is changed and changed back leaves its slot drawing as it
/// drew before the change, whatever was drawn in between.
///
/// The slot `first` has just followed a change to the font `a`. Later, as
/// `then`, it follows the font `b`, and what that gives follows, as
/// `later`, the font `a` again. With a steady loader the face in use is
/// then the face that was in use at first.
pub proof fn lemma_reverted_font<P, L: Fn(&crate::settings::Font) -> Option<Font>>(
    before: &FontSlot<P>,
    a: &Option<crate::settings::Font>,
    b: &Option<crate::settings::Font>,
    load: &L,
    first: &FontSlot<P>,
    then: &FontSlot<P>,
    changed: &FontSlot<P>,
    later: &FontSlot<P>,
    reverted: &FontSlot<P>,
)
    requires
        is_steady(load),
        !same_font(&before.setting, a),
        before.follows(a, load, first),
        same_face(first, then),
        then.follows(b, load, changed),
        same_face(changed, later),
        later.follows(a, load, reverted),
    ensures
        same_face(first, reverted),
        !same_font(a, b) ==> reverted.glyph_cache.spec_len() == 0,
{
    if !same_font(a, b) {
        assert(!same_font(&then.setting, b));
        assert(!same_font(&later.setting, a));
        if let Some(font) = a {
            let x = choose|loaded: Option<Font>| #[trigger]
                call_ensures(*load, (font,), loaded) && match loaded {
                    Some(face) => first.font == face,
                    None => first.uses_default(),
                };
            let y = choose|loaded: Option<Font>| #[trigger]
                call_ensures(*load, (font,), loaded) && match loaded {
                    Some(face) => reverted.font == face,
                    None => reverted.uses_default(),
                };
            assert(x == y);
        }
    }
}

/// What a renderer has decided for a frame before anything is drawn.
pub struct Frame<P> {
    /// The paths of glyphs that are no longer needed, for the backend to
    /// release.
    pub freed: Vec<P>,
    /// The change of the surface to ask the host for, if any.
    pub resize: Option<Resize>,
    /// Where every component starts along the direction of the layout, and
    /// last the extent of the whole layout, in steps.
    pub origins: Vec<u128>,
}

/// A renderer draws one layout after another onto one surface. It keeps
/// what it can reuse from frame to frame: the three fonts with their
/// glyphs, the icons, the unit rectangle, and the shape of the layout.
pub struct Renderer<P, I> {
    /// The font of the timer.
    pub timer: FontSlot<P>,
    /// The font of times.
    pub times: FontSlot<P>,
    /// The font of text.
    pub text: FontSlot<P>,
    /// The path of the unit rectangle, once it has been built.
    pub rectangle: Option<P>,
    /// The shape of the layout that was rendered last.
    pub cached_size: Option<CachedSize>,
    /// The icons.
    pub icons: IconCache<I>,
}

impl<P, I> Renderer<P, I> {
    /// The three fonts are in order.
    pub open spec fn wf(&self) -> bool {
        self.timer.wf() && self.times.wf() && self.text.wf()
    }

    /// Creates a renderer with its built-in fonts: a bold face of the font
    /// for the timer, and a bold and a regular face of the font for text,
    /// for times and for text. Returns `None` where one of them cannot be
    /// loaded.
    pub fn new(timer_font: &[u8], text_font: &[u8]) -> (renderer: Option<Self>)
        ensures
            renderer is Some <==> {
                &&& Font::parses(
                    timer_font@,
                    0,
                    FontStyle::Normal,
                    FontWeight::Bold,
                    FontStretch::Normal,
                )
                &&& Font::parses(
                    text_font@,
                    0,
                    FontStyle::Normal,
                    FontWeight::Bold,
                    FontStretch::Normal,
                )
                &&& Font::parses(
                    text_font@,
                    0,
                    FontStyle::Normal,
                    FontWeight::Normal,
                    FontStretch::Normal,
                )
            },
            renderer matches Some(r) ==> {
                &&& r.wf()
                &&& r.timer.uses_default() && r.timer.default_data@ == timer_font@
                &&& r.times.uses_default() && r.times.default_data@ == text_font@
                &&& r.text.uses_default() && r.text.default_data@ == text_font@
                &&& r.timer.default_weight == FontWeight::Bold
                &&& r.times.default_weight == FontWeight::Bold
                &&& r.text.default_weight == FontWeight::Normal
                &&& r.rectangle is None
                &&& r.cached_size is None
            },
    {
        let timer = match FontSlot::new(timer_font, FontWeight::Bold) {
            Some(slot) => slot,
            None => {
                return None;
            },
        };
        let times = match FontSlot::new(text_font, FontWeight::Bold) {
            Some(slot) => slot,
            None => {
                return None;
            },
        };
        let text = match FontSlot::new(text_font, FontWeight::Normal) {
            Some(slot) => slot,
            None => {
                return None;
            },
        };
        Some(
            Renderer {
                timer,
                times,
                text,
                rectangle: None,
                cached_size: None,
                icons: IconCache::new(),
            },
        )
    }

    /// Makes sure the path of the unit rectangle exists. It is built by
    /// `build` the first time and kept from then on.
    pub fn ensure_rectangle<F: FnOnce() -> P>(&mut self, build: F)
        requires
            call_requires(build, ()),
        ensures
            old(self).rectangle is Some ==> *final(self) == *old(self),
            old(self).rectangle is None ==> exists|path: P| #[trigger]
                call_ensures(build, (), path) && *final(self) == (Renderer {
                    rectangle: Some(path),
                    ..*old(self)
                }),
    {
        if self.rectangle.is_none() {
            self.rectangle = Some(build());
        }
    }

    /// Prepares a frame: follows the fonts the layout asks for, works out
    /// where every component goes, and remembers the shape of the layout.
    ///
    /// The components then have their space along the direction of the
    /// layout between one origin and the next. A vertical layout is as wide
    /// as the surface. In a horizontal layout every component is two rows
    /// high, and the width of the surface is shared out in proportion to
    /// the widths the components ask for.
    pub fn render<L: Fn(&crate::settings::Font) -> Option<Font>>(
        &mut self,
        state: &LayoutState,
        load: &L,
    ) -> (frame: Frame<P>)
        requires
            old(self).wf(),
            forall|font: &crate::settings::Font| call_requires(*load, (font,)),
        ensures
            final(self).wf(),
            is_frame(old(self), state, load, final(self), &frame),
    {
        let mut freed = self.timer.update(&state.timer_font, load);
        let mut times_freed = self.times.update(&state.times_font, load);
        let mut text_freed = self.text.update(&state.text_font, load);
        freed.append(&mut times_freed);
        freed.append(&mut text_freed);
        let origins = component_origins(&state.components, state.direction);
        let total: u128 = origins[state.components.len()];
        let resize = update_cached_size(&mut self.cached_size, state.direction, total);
        Frame { freed, resize, origins }
    }
}

/// Whether `frame` is the frame that a renderer prepares for a layout,
/// and `after` the renderer once it has.
///
/// Every font has followed the font the layout asks for, and the paths of
/// the fonts that changed are handed out, those of the timer first and
/// those of text last. The origins are those of the components along the
/// direction of the layout. The shape of the layout is remembered, and a
/// change of the surface is asked for where the shape has changed. The
/// unit rectangle and the icons are as they were.
pub open spec fn is_frame<P, I, L: Fn(&crate::settings::Font) -> Option<Font>>(
    before: &Renderer<P, I>,
    state: &LayoutState,
    load: &L,
    after: &Renderer<P, I>,
    frame: &Frame<P>,
) -> bool {
    let extent = spec_total_extent(state.components@, state.direction) as u128;
    &&& after.rectangle == before.rectangle
    &&& after.icons == before.icons
    &&& after.cached_size == Some(remembered(state.direction, extent))
    &&& frame.resize == spec_resize(before.cached_size, state.direction, extent)
    &&& frame.origins@.len() == state.components@.len() + 1
    &&& forall|i: int|
        0 <= i <= state.components@.len() ==> #[trigger] frame.origins@[i] == spec_extent_before(
            state.components@,
            state.direction,
            i,
        )
    &&& before.timer.follows(&state.timer_font, load, &after.timer)
    &&& before.times.follows(&state.times_font, load, &after.times)
    &&& before.text.follows(&state.text_font, load, &after.text)
    &&& frame.freed@ == spec_freed(&before.timer, &state.timer_font) + spec_freed(
        &before.times,
        &state.times_font,
    ) + spec_freed(&before.text, &state.text_font)
}

/// Preparing a frame is deterministic: with a steady loader, the same
/// renderer and the same layout give the same frame and leave the renderer
/// in the same state.
pub proof fn lemma_frame_is_determined<P, I, L: Fn(&crate::settings::Font) -> Option<Font>>(
    before: &Renderer<P, I>,
    state: &LayoutState,
    load: &L,
    first: &Renderer<P, I>,
    first_frame: &Frame<P>,
    second: &Renderer<P, I>,
    second_frame: &Frame<P>,
)
    requires
        is_steady(load),
        is_frame(before, state, load, first, first_frame),
        is_frame(before, state, load, second, second_frame),
    ensures
        first_frame.origins@ == second_frame.origins@,
        first_frame.resize == second_frame.resize,
        first_frame.freed@ == second_frame.freed@,
        first.cached_size == second.cached_size,
        first.rectangle == second.rectangle,
        first.icons == second.icons,
        same_slot(&first.timer, &second.timer),
        same_slot(&first.times, &second.times),
        same_slot(&first.text, &second.text),
{
    assert(first_frame.origins@ =~= second_frame.origins@);
    lemma_follows_is_determined(&before.timer, &state.timer_font, load, &first.timer, &second.timer);
    lemma_follows_is_determined(&before.times, &state.times_font, load, &first.times, &second.times);
    lemma_follows_is_determined(&before.text, &state.text_font, load, &first.text, &second.text);
}

/// A layout that is rendered again as it is asks for nothing and gives up
/// nothing: no font changes, no path is handed out, the surface stays as
/// it is, and the renderer is left as it was.
pub proof fn lemma_unchanged_layout_keeps_everything<
    P,
    I,
    L: Fn(&crate::settings::Font) -> Option<Font>,
>(
    before: &Renderer<P, I>,
    state: &LayoutState,
    load: &L,
    once: &Renderer<P, I>,
    first_frame: &Frame<P>,
    twice: &Renderer<P, I>,
    second_frame: &Frame<P>,
)
    requires
        is_frame(before, state, load, once, first_frame),
        is_frame(once, state, load, twice, second_frame),
    ensures
        second_frame.freed@.len() == 0,
        second_frame.resize is None,
        second_frame.origins@ == first_frame.origins@,
        *twice == *once,
{
    assert(second_frame.origins@ =~= first_frame.origins@);
    assert(same_font(&once.timer.setting, &state.timer_font));
    assert(same_font(&once.times.setting, &state.times_font));
    assert(same_font(&once.text.setting, &state.text_font));
}

/// The paths that are handed out when a font slot follows the font that is
/// asked for: all paths of its glyph cache if the font changes, and none if
/// it stays.
pub open spec fn spec_freed<P>(
    slot: &FontSlot<P>,
    requested: &Option<crate::settings::Font>,
) -> Seq<P> {
    if same_font(&slot.setting, requested) {
        Seq::empty()
    } else {
        slot.glyph_cache.paths().reverse()
    }
}

/// What is drawn for a component that shows a key and its value.
pub struct KeyValueLayout {
    /// The glyphs of the value, in half font units of the font for times.
    pub value: Vec<PositionedGlyph>,
    /// Where the value starts, in half font units of the font for times.
    pub value_start: Cursor,
    /// Which text stands for the key: 0 for the key itself, and any other
    /// number for the abbreviation of that number, counted from 1.
    pub choice: usize,
    /// The glyphs of the key, in half font units of the font for text.
    pub key: Vec<PositionedGlyph>,
    /// Where the key ends, in half font units of the font for text.
    pub key_end: Cursor,
}

/// The key and its abbreviations: the texts that may stand for the key.
pub open spec fn key_candidates(key: Seq<char>, abbreviations: Seq<String>) -> Seq<Seq<char>> {
    seq![key] + texts_of(abbreviations)
}

/// Where the room for the key ends, in half font units of the font for
/// text: at the right edge of the component where the key has a row of its
/// own, and where the value starts where it has not.
pub open spec fn key_value_end(
    text: ScaledFont<'_>,
    times: &Font,
    width: int,
    value_start: int,
    display_two_rows: bool,
) -> int {
    if display_two_rows {
        text.spec_half_units(width)
    } else {
        text.spec_carry_over(value_start, times)
    }
}

/// Whether `layout` is what is drawn for a key and its value in a
/// component of the given size.
///
/// The value is laid out as numbers and ends one padding left of the right
/// edge, on the bottom baseline. The key starts one padding right of the
/// left edge, on the top baseline. It may reach up to one padding left of
/// where its room ends, and is cut short with an ellipsis beyond that. It
/// is written as the longest of its forms that leaves a padding on either
/// side.
pub open spec fn is_key_value_layout(
    text: ScaledFont<'_>,
    times: ScaledFont<'_>,
    key: Seq<char>,
    abbreviations: Seq<String>,
    value: Seq<char>,
    width: int,
    height: int,
    display_two_rows: bool,
    layout: KeyValueLayout,
) -> bool {
    let candidates = key_candidates(key, abbreviations);
    let end = key_value_end(text, times.font, width, layout.value_start.x as int, display_two_rows);
    &&& is_tabular(
        spec_number_run(times.font, value),
        times.font.spec_digits(),
        times.font.spec_digit_width() as int,
        times.spec_half_units(width - PADDING),
        times.spec_half_units(height + TEXT_ALIGN_BOTTOM),
        layout.value@,
        layout.value_start.x as int,
        layout.value_start.y as int,
    )
    &&& layout.choice < candidates.len()
    &&& is_abbreviation_choice(
        measured(text.font, candidates),
        end - text.spec_half_units(BOTH_PADDINGS as int),
        layout.choice as int,
    )
    &&& is_left_aligned(
        spec_text_run(text.font, candidates[layout.choice as int]),
        text.spec_half_units(PADDING as int),
        text.spec_half_units(TEXT_ALIGN_TOP as int),
        end - text.spec_half_units(PADDING as int),
        text.font.spec_ellipsis(),
        text.font.spec_ellipsis_advance(),
        layout.key@,
        layout.key_end.x as int,
        layout.key_end.y as int,
    )
}

/// Lays out a component that shows a key and its value, with text of the
/// default size. The width and the height of the component are in steps.
///
/// Both faces have to have a height.
pub fn render_key_value_component(
    text_font: &Font,
    times_font: &Font,
    key: &String,
    abbreviations: &Vec<String>,
    value: &str,
    width: u64,
    height: u64,
    display_two_rows: bool,
) -> (layout: KeyValueLayout)
    requires
        text_font.spec_height() > 0,
        times_font.spec_height() > 0,
    ensures
        is_key_value_layout(
            ScaledFont { font: text_font, size: DEFAULT_TEXT_SIZE },
            ScaledFont { font: times_font, size: DEFAULT_TEXT_SIZE },
            key@,
            abbreviations@,
            value@,
            width as int,
            height as int,
            display_two_rows,
            layout,
        ),
{
    let text = text_font.scale(DEFAULT_TEXT_SIZE);
    let times = times_font.scale(DEFAULT_TEXT_SIZE);
    let value_pos = Cursor::new(
        times.half_units(width as i128 - PADDING as i128),
        times.half_units(height as i128 + TEXT_ALIGN_BOTTOM as i128),
    );
    let (value_glyphs, value_start) = render_numbers(times, value, value_pos);
    let end_x: i128 = if display_two_rows {
        text.half_units(width as i128)
    } else {
        text.carry_over(value_start.x, times_font)
    };
    let mut candidates: Vec<String> = Vec::new();
    candidates.push(key.clone());
    let mut i: usize = 0;
    while i < abbreviations.len()
        invariant
            0 <= i <= abbreviations.len(),
            candidates.len() == i + 1,
            candidates@[0]@ == key@,
            forall|k: int| 0 <= k < i ==> (#[trigger] candidates@[k + 1])@ == abbreviations@[k]@,
        decreases abbreviations.len() - i,
    {
        candidates.push(abbreviations[i].clone());
        i = i + 1;
    }
    proof {
        assert forall|k: int| 0 <= k < candidates.len() implies #[trigger] texts_of(
            candidates@,
        )[k] == key_candidates(key@, abbreviations@)[k] by {
            if k > 0 {
                assert(candidates@[(k - 1) + 1]@ == abbreviations@[k - 1]@);
            }
        }
        assert(texts_of(candidates@) =~= key_candidates(key@, abbreviations@));
    }
    let padding: i128 = text.half_units(PADDING as i128);
    let choice: usize = choose_abbreviation(
        text,
        &candidates,
        end_x - text.half_units(BOTH_PADDINGS as i128),
    ).unwrap();
    let top: i128 = text.half_units(TEXT_ALIGN_TOP as i128);
    let (key_glyphs, key_end) = render_text_ellipsis(
        text,
        candidates[choice].as_str(),
        Cursor::new(padding, top),
        end_x - padding,
    );
    KeyValueLayout { value: value_glyphs, value_start, choice, key: key_glyphs, key_end }
}

} // verus!
