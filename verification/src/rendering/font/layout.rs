//! Where each glyph of a shaped run is placed.
//!
//! A run is laid out in the units of its font and only scaled to the text
//! size when it is drawn. Positions are counted in half font units, so that
//! centering a run, or a digit inside its cell, never needs a fraction.

use vstd::prelude::*;

verus! {

/// One glyph of a shaped run, as the shaper gives it: the glyph to draw, by
/// how much it moves the pen, and by how much it is shifted away from the
/// pen. All lengths are in font units.
#[derive(Clone, Copy, Debug, PartialEq, Eq, Structural)]
pub struct ShapedGlyph {
    /// The glyph to draw.
    pub id: u32,
    /// How far the pen moves to the right after the glyph.
    pub x_advance: i32,
    /// How far the pen moves down after the glyph.
    pub y_advance: i32,
    /// How far the glyph is drawn to the right of the pen.
    pub x_offset: i32,
    /// How far the glyph is drawn below the pen.
    pub y_offset: i32,
}

impl ShapedGlyph {
    /// Puts the five values of a shaped glyph together.
    pub fn new(id: u32, x_advance: i32, y_advance: i32, x_offset: i32, y_offset: i32) -> (glyph:
        ShapedGlyph)
        ensures
            glyph == (ShapedGlyph { id, x_advance, y_advance, x_offset, y_offset }),
    {
        ShapedGlyph { id, x_advance, y_advance, x_offset, y_offset }
    }
}

/// A glyph with the position it is drawn at, in half font units.
#[derive(Clone, Copy, Debug, PartialEq, Eq, Structural)]
pub struct PositionedGlyph {
    /// The glyph to draw.
    pub id: u32,
    /// The horizontal position of the glyph's origin.
    pub x: i128,
    /// The vertical position of the glyph's origin.
    pub y: i128,
}

/// The pen. A layout starts at the cursor it is given and leaves the cursor
/// where the run ends. Both coordinates are in half font units.
#[derive(Clone, Copy, Debug, PartialEq, Eq, Structural)]
pub struct Cursor {
    /// The horizontal position of the pen.
    pub x: i128,
    /// The vertical position of the pen.
    pub y: i128,
}

/// The largest distance from the origin at which a layout may start or be
/// bounded, in half font units (2^120). A run of any length that starts
/// within it stays representable.
pub const COORDINATE_LIMIT: i128 = 0x100_0000_0000_0000_0000_0000_0000_0000;

/// Whether a coordinate lies within [`COORDINATE_LIMIT`] of the origin.
pub open spec fn coordinate_in_range(v: int) -> bool {
    -(COORDINATE_LIMIT as int) <= v <= COORDINATE_LIMIT as int
}

impl Cursor {
    /// Places the pen at a position.
    pub fn new(x: i128, y: i128) -> (cursor: Cursor)
        ensures
            cursor.x == x,
            cursor.y == y,
    {
        Cursor { x, y }
    }

    /// Whether a layout may start at this cursor.
    pub open spec fn in_range(self) -> bool {
        coordinate_in_range(self.x as int) && coordinate_in_range(self.y as int)
    }
}

/// The horizontal advance of the first `n` glyphs taken together.
pub open spec fn sum_x(glyphs: Seq<ShapedGlyph>, n: int) -> int
    decreases n,
{
    if n <= 0 {
        0
    } else {
        sum_x(glyphs, n - 1) + glyphs[n - 1].x_advance
    }
}

/// The vertical advance of the first `n` glyphs taken together.
pub open spec fn sum_y(glyphs: Seq<ShapedGlyph>, n: int) -> int
    decreases n,
{
    if n <= 0 {
        0
    } else {
        sum_y(glyphs, n - 1) + glyphs[n - 1].y_advance
    }
}

/// The width of a run: the horizontal advance of all its glyphs.
pub open spec fn spec_width(glyphs: Seq<ShapedGlyph>) -> int {
    sum_x(glyphs, glyphs.len() as int)
}

/// The horizontal advance of the glyphs from index `k` to the end.
pub open spec fn tail_x(glyphs: Seq<ShapedGlyph>, k: int) -> int {
    spec_width(glyphs) - sum_x(glyphs, k)
}

/// Whether `glyph` is the glyph `id` drawn at `(x, y)`.
pub open spec fn placed(glyph: PositionedGlyph, id: u32, x: int, y: int) -> bool {
    glyph.id == id && glyph.x == x && glyph.y == y
}

/// The advances of any `n` glyphs stay within `n` times the range of one.
pub proof fn lemma_sum_bounds(glyphs: Seq<ShapedGlyph>, n: int)
    requires
        0 <= n <= glyphs.len(),
    ensures
        -n * 0x8000_0000 <= sum_x(glyphs, n) <= n * 0x8000_0000,
        -n * 0x8000_0000 <= sum_y(glyphs, n) <= n * 0x8000_0000,
    decreases n,
{
    if n > 0 {
        lemma_sum_bounds(glyphs, n - 1);
    }
}

/// Where glyphs never move the pen to the left, a longer prefix is at least
/// as wide as a shorter one.
pub proof fn lemma_sum_monotonic(glyphs: Seq<ShapedGlyph>, i: int, j: int)
    requires
        0 <= i <= j <= glyphs.len(),
        forall|k: int| 0 <= k < glyphs.len() ==> (#[trigger] glyphs[k]).x_advance >= 0,
    ensures
        sum_x(glyphs, i) <= sum_x(glyphs, j),
    decreases j - i,
{
    if i < j {
        lemma_sum_monotonic(glyphs, i, j - 1);
    }
}

/// Computes the width of a run in font units.
pub fn width(glyphs: &Vec<ShapedGlyph>) -> (w: i128)
    ensures
        w == spec_width(glyphs@),
        -(glyphs.len() as int) * 0x8000_0000 <= w <= glyphs.len() * 0x8000_0000,
{
    let mut w: i128 = 0;
    let mut i: usize = 0;
    while i < glyphs.len()
        invariant
            0 <= i <= glyphs.len(),
            w == sum_x(glyphs@, i as int),
            -(i as int) * 0x8000_0000 <= w <= i * 0x8000_0000,
        decreases glyphs.len() - i,
    {
        w = w + glyphs[i].x_advance as i128;
        i = i + 1;
    }
    w
}

/// Computes the vertical advance of a whole run in font units.
pub fn height_advance(glyphs: &Vec<ShapedGlyph>) -> (h: i128)
    ensures
        h == sum_y(glyphs@, glyphs.len() as int),
        -(glyphs.len() as int) * 0x8000_0000 <= h <= glyphs.len() * 0x8000_0000,
{
    let mut h: i128 = 0;
    let mut i: usize = 0;
    while i < glyphs.len()
        invariant
            0 <= i <= glyphs.len(),
            h == sum_y(glyphs@, i as int),
            -(i as int) * 0x8000_0000 <= h <= i * 0x8000_0000,
        decreases glyphs.len() - i,
    {
        h = h + glyphs[i].y_advance as i128;
        i = i + 1;
    }
    h
}

/// Whether a run that starts at `x` ends to the right of `max_x`, so that it
/// has to be cut and closed with an ellipsis.
pub open spec fn needs_ellipsis(glyphs: Seq<ShapedGlyph>, x: int, max_x: int) -> bool {
    x + 2 * spec_width(glyphs) > max_x
}

/// How much has to be cut from the end of a run that overshoots `max_x`, in
/// half font units: the overshoot, and room for the ellipsis.
pub open spec fn cut_threshold(
    glyphs: Seq<ShapedGlyph>,
    x: int,
    max_x: int,
    ellipsis_advance: int,
) -> int {
    2 * ellipsis_advance + x + 2 * spec_width(glyphs) - max_x
}

/// Glyphs are cut from the end, one at a time, until what was cut reaches
/// the threshold. This is the number of glyphs that stay when the cut may
/// still take glyphs below index `k`; nothing stays when the threshold is
/// never reached.
pub open spec fn kept_from(glyphs: Seq<ShapedGlyph>, threshold: int, k: int) -> int
    decreases k,
{
    if k <= 0 {
        0
    } else if 2 * tail_x(glyphs, k - 1) >= threshold {
        k - 1
    } else {
        kept_from(glyphs, threshold, k - 1)
    }
}

/// The number of glyphs of a run that a left-aligned layout draws.
pub open spec fn spec_kept(
    glyphs: Seq<ShapedGlyph>,
    x: int,
    max_x: int,
    ellipsis_advance: int,
) -> int {
    if needs_ellipsis(glyphs, x, max_x) {
        kept_from(
            glyphs,
            cut_threshold(glyphs, x, max_x, ellipsis_advance),
            glyphs.len() as int,
        )
    } else {
        glyphs.len() as int
    }
}

/// What [`kept_from`] computes: the cut stops at the first glyph from the
/// end at which it reaches the threshold.
pub proof fn lemma_kept_from(glyphs: Seq<ShapedGlyph>, threshold: int, k: int)
    requires
        0 <= k <= glyphs.len(),
    ensures
        0 <= kept_from(glyphs, threshold, k) <= k,
        k > 0 ==> kept_from(glyphs, threshold, k) < k,
        forall|j: int|
            kept_from(glyphs, threshold, k) < j < k ==> 2 * #[trigger] tail_x(glyphs, j)
                < threshold,
        (exists|j: int| 0 <= j < k && 2 * #[trigger] tail_x(glyphs, j) >= threshold) ==> 2
            * tail_x(glyphs, kept_from(glyphs, threshold, k)) >= threshold,
    decreases k,
{
    if k > 0 {
        lemma_kept_from(glyphs, threshold, k - 1);
        if 2 * tail_x(glyphs, k - 1) < threshold {
            if exists|j: int| 0 <= j < k && 2 * #[trigger] tail_x(glyphs, j) >= threshold {
                let j = choose|j: int| 0 <= j < k && 2 * #[trigger] tail_x(glyphs, j) >= threshold;
                assert(0 <= j < k - 1);
            }
        }
    }
}

/// What a left-to-right layout of `glyphs` that starts at `(x0, y0)` gives:
/// the glyphs that stay, each drawn at the pen plus its own offset, then the
/// ellipsis where the run was cut, and the pen `(x1, y1)` after the last
/// glyph that stayed.
pub open spec fn is_left_aligned(
    glyphs: Seq<ShapedGlyph>,
    x0: int,
    y0: int,
    max_x: int,
    ellipsis: u16,
    ellipsis_advance: u16,
    out: Seq<PositionedGlyph>,
    x1: int,
    y1: int,
) -> bool {
    let kept = spec_kept(glyphs, x0, max_x, ellipsis_advance as int);
    &&& 0 <= kept <= glyphs.len()
    &&& out.len() == kept + if needs_ellipsis(glyphs, x0, max_x) {
        1int
    } else {
        0int
    }
    &&& forall|i: int|
        0 <= i < kept ==> placed(
            #[trigger] out[i],
            glyphs[i].id,
            x0 + 2 * sum_x(glyphs, i) + 2 * glyphs[i].x_offset,
            y0 + 2 * sum_y(glyphs, i) + 2 * glyphs[i].y_offset,
        )
    &&& needs_ellipsis(glyphs, x0, max_x) ==> placed(
        out[kept],
        ellipsis as u32,
        x0 + 2 * sum_x(glyphs, kept),
        y0,
    )
    &&& x1 == x0 + 2 * sum_x(glyphs, kept)
    &&& y1 == y0 + 2 * sum_y(glyphs, kept)
}

/// Lays a run out from the cursor to the right.
///
/// A run that would end to the right of `max_x` loses glyphs from its end
/// until what is left, followed by the ellipsis glyph, fits; the ellipsis is
/// then drawn where the pen stands after the last glyph that stayed. The
/// cursor is left after the last glyph that stayed. The ellipsis does not
/// move it.
pub fn layout_left_aligned(
    glyphs: &Vec<ShapedGlyph>,
    cursor: &mut Cursor,
    max_x: i128,
    ellipsis: u16,
    ellipsis_advance: u16,
) -> (out: Vec<PositionedGlyph>)
    requires
        old(cursor).in_range(),
        coordinate_in_range(max_x as int),
    ensures
        is_left_aligned(
            glyphs@,
            old(cursor).x as int,
            old(cursor).y as int,
            max_x as int,
            ellipsis,
            ellipsis_advance,
            out@,
            final(cursor).x as int,
            final(cursor).y as int,
        ),
{
    let (out, end) = lay_out_from(glyphs, cursor.x, cursor.y, max_x, ellipsis, ellipsis_advance);
    cursor.x = end.x;
    cursor.y = end.y;
    out
}

/// The layout that [`layout_left_aligned`] and [`layout_centered`] share. It
/// starts at `(x0, y0)`, which may lie a run's length outside the range that
/// callers are held to, and returns the glyphs with the pen after the last
/// glyph that stayed.
fn lay_out_from(
    glyphs: &Vec<ShapedGlyph>,
    x0: i128,
    y0: i128,
    max_x: i128,
    ellipsis: u16,
    ellipsis_advance: u16,
) -> (r: (Vec<PositionedGlyph>, Cursor))
    requires
        -2 * COORDINATE_LIMIT <= x0 <= 2 * COORDINATE_LIMIT,
        -2 * COORDINATE_LIMIT <= y0 <= 2 * COORDINATE_LIMIT,
        coordinate_in_range(max_x as int),
    ensures
        is_left_aligned(
            glyphs@,
            x0 as int,
            y0 as int,
            max_x as int,
            ellipsis,
            ellipsis_advance,
            r.0@,
            r.1.x as int,
            r.1.y as int,
        ),
{
    let n: usize = glyphs.len();
    let total: i128 = width(glyphs);
    let ends_at: i128 = x0 + 2 * total;
    let mut kept: usize = n;
    let cut_short: bool = ends_at > max_x;
    if cut_short {
        let threshold: i128 = 2 * (ellipsis_advance as i128) + (ends_at - max_x);
        let mut cut: i128 = 0;
        let mut found: bool = false;
        while kept > 0 && !found
            invariant
                n == glyphs.len(),
                0 <= kept <= n,
                cut == 2 * tail_x(glyphs@, kept as int),
                -(n as int) * 0x4_0000_0000 <= cut <= n * 0x4_0000_0000,
                total == spec_width(glyphs@),
                found ==> kept_from(glyphs@, threshold as int, n as int) == kept,
                !found ==> kept_from(glyphs@, threshold as int, n as int) == kept_from(
                    glyphs@,
                    threshold as int,
                    kept as int,
                ),
            decreases kept + if found { 0int } else { 1int },
        {
            proof {
                lemma_sum_bounds(glyphs@, kept as int);
                lemma_sum_bounds(glyphs@, kept as int - 1);
                lemma_sum_bounds(glyphs@, n as int);
            }
            kept = kept - 1;
            cut = cut + 2 * (glyphs[kept].x_advance as i128);
            if cut >= threshold {
                found = true;
            }
        }
    }
    proof {
        lemma_kept_from(
            glyphs@,
            cut_threshold(glyphs@, x0 as int, max_x as int, ellipsis_advance as int),
            n as int,
        );
    }
    let mut out: Vec<PositionedGlyph> = Vec::new();
    let mut i: usize = 0;
    let mut pen_x: i128 = x0;
    let mut pen_y: i128 = y0;
    while i < kept
        invariant
            n == glyphs.len(),
            0 <= i <= kept <= n,
            -2 * COORDINATE_LIMIT <= x0 <= 2 * COORDINATE_LIMIT,
            -2 * COORDINATE_LIMIT <= y0 <= 2 * COORDINATE_LIMIT,
            pen_x == x0 + 2 * sum_x(glyphs@, i as int),
            pen_y == y0 + 2 * sum_y(glyphs@, i as int),
            out.len() == i,
            forall|j: int|
                0 <= j < i ==> placed(
                    #[trigger] out[j],
                    glyphs[j].id,
                    x0 + 2 * sum_x(glyphs@, j) + 2 * glyphs[j].x_offset,
                    y0 + 2 * sum_y(glyphs@, j) + 2 * glyphs[j].y_offset,
                ),
        decreases kept - i,
    {
        proof {
            lemma_sum_bounds(glyphs@, i as int);
            lemma_sum_bounds(glyphs@, i as int + 1);
        }
        let g: ShapedGlyph = glyphs[i];
        out.push(
            PositionedGlyph {
                id: g.id,
                x: pen_x + 2 * (g.x_offset as i128),
                y: pen_y + 2 * (g.y_offset as i128),
            },
        );
        pen_x = pen_x + 2 * (g.x_advance as i128);
        pen_y = pen_y + 2 * (g.y_advance as i128);
        i = i + 1;
    }
    if cut_short {
        out.push(PositionedGlyph { id: ellipsis as u32, x: pen_x, y: y0 });
    }
    (out, Cursor { x: pen_x, y: pen_y })
}

/// The vertical advance of the glyphs from index `k` to the end.
pub open spec fn tail_y(glyphs: Seq<ShapedGlyph>, k: int) -> int {
    sum_y(glyphs, glyphs.len() as int) - sum_y(glyphs, k)
}

/// What a layout of `glyphs` that ends at `(x0, y0)` gives: the glyphs from
/// the last to the first, each drawn at the pen plus its own offset after
/// its advance took the pen to the left, and the pen `(x1, y1)` at the start
/// of the run.
pub open spec fn is_right_aligned(
    glyphs: Seq<ShapedGlyph>,
    x0: int,
    y0: int,
    out: Seq<PositionedGlyph>,
    x1: int,
    y1: int,
) -> bool {
    &&& out.len() == glyphs.len()
    &&& forall|k: int|
        0 <= k < out.len() ==> {
            let i = glyphs.len() - 1 - k;
            placed(
                #[trigger] out[k],
                glyphs[i].id,
                x0 - 2 * tail_x(glyphs, i) + 2 * glyphs[i].x_offset,
                y0 - 2 * tail_y(glyphs, i) + 2 * glyphs[i].y_offset,
            )
        }
    &&& x1 == x0 - 2 * spec_width(glyphs)
    &&& y1 == y0 - 2 * sum_y(glyphs, glyphs.len() as int)
}

/// Lays a run out so that it ends at the cursor.
///
/// The glyphs are placed from the last to the first, and come out in that
/// order: each moves the pen to the left by its advance and is drawn where
/// the pen then stands. The cursor is left at the start of the run.
pub fn layout_right_aligned(glyphs: &Vec<ShapedGlyph>, cursor: &mut Cursor) -> (out: Vec<
    PositionedGlyph,
>)
    requires
        old(cursor).in_range(),
    ensures
        is_right_aligned(
            glyphs@,
            old(cursor).x as int,
            old(cursor).y as int,
            out@,
            final(cursor).x as int,
            final(cursor).y as int,
        ),
{
    let n: usize = glyphs.len();
    let x0: i128 = cursor.x;
    let y0: i128 = cursor.y;
    let mut out: Vec<PositionedGlyph> = Vec::new();
    let mut i: usize = n;
    let mut pen_x: i128 = x0;
    let mut pen_y: i128 = y0;
    proof {
        lemma_sum_bounds(glyphs@, n as int);
    }
    while i > 0
        invariant
            n == glyphs.len(),
            0 <= i <= n,
            coordinate_in_range(x0 as int),
            coordinate_in_range(y0 as int),
            pen_x == x0 - 2 * tail_x(glyphs@, i as int),
            pen_y == y0 - 2 * tail_y(glyphs@, i as int),
            -(n as int) * 0x8000_0000 <= sum_x(glyphs@, n as int) <= n * 0x8000_0000,
            -(n as int) * 0x8000_0000 <= sum_y(glyphs@, n as int) <= n * 0x8000_0000,
            out.len() == n - i,
            forall|k: int|
                0 <= k < out.len() ==> placed(
                    #[trigger] out[k],
                    glyphs[n - 1 - k].id,
                    x0 - 2 * tail_x(glyphs@, n - 1 - k) + 2 * glyphs[n - 1 - k].x_offset,
                    y0 - 2 * tail_y(glyphs@, n - 1 - k) + 2 * glyphs[n - 1 - k].y_offset,
                ),
        decreases i,
    {
        proof {
            lemma_sum_bounds(glyphs@, i as int);
            lemma_sum_bounds(glyphs@, i as int - 1);
        }
        i = i - 1;
        let g: ShapedGlyph = glyphs[i];
        pen_x = pen_x - 2 * (g.x_advance as i128);
        pen_y = pen_y - 2 * (g.y_advance as i128);
        out.push(
            PositionedGlyph {
                id: g.id,
                x: pen_x + 2 * (g.x_offset as i128),
                y: pen_y + 2 * (g.y_offset as i128),
            },
        );
    }
    cursor.x = pen_x;
    cursor.y = pen_y;
    out
}

/// Where a centered run starts: half its width to the left of the anchor,
/// moved left as far as needed to end at `max_x`, and then right as far as
/// needed to start at `min_x`. The left bound wins where both cannot be met.
pub open spec fn centered_start(
    glyphs: Seq<ShapedGlyph>,
    x: int,
    min_x: int,
    max_x: int,
) -> int {
    let w = spec_width(glyphs);
    let centered = x - w;
    let pulled = if centered + 2 * w >= max_x {
        max_x - 2 * w
    } else {
        centered
    };
    if pulled < min_x {
        min_x
    } else {
        pulled
    }
}

/// Lays a run out around the cursor, inside the span from `min_x` to
/// `max_x`.
///
/// The run starts at [`centered_start`], half its vertical advance above the
/// cursor, and is laid out from there as [`layout_left_aligned`] does, with
/// the ellipsis as the last resort where even the whole span is too narrow.
/// Positions are exact, so a run that is pulled back to end at `max_x` ends
/// there to the half unit and is never taken to overshoot.
pub fn layout_centered(
    glyphs: &Vec<ShapedGlyph>,
    cursor: &mut Cursor,
    min_x: i128,
    max_x: i128,
    ellipsis: u16,
    ellipsis_advance: u16,
) -> (out: Vec<PositionedGlyph>)
    requires
        old(cursor).in_range(),
        coordinate_in_range(min_x as int),
        coordinate_in_range(max_x as int),
    ensures
        is_left_aligned(
            glyphs@,
            centered_start(glyphs@, old(cursor).x as int, min_x as int, max_x as int),
            old(cursor).y - sum_y(glyphs@, glyphs.len() as int),
            max_x as int,
            ellipsis,
            ellipsis_advance,
            out@,
            final(cursor).x as int,
            final(cursor).y as int,
        ),
{
    let w: i128 = width(glyphs);
    let h: i128 = height_advance(glyphs);
    let mut x: i128 = cursor.x - w;
    if x + 2 * w >= max_x {
        x = max_x - 2 * w;
    }
    if x < min_x {
        x = min_x;
    }
    let (out, end) = lay_out_from(glyphs, x, cursor.y - h, max_x, ellipsis, ellipsis_advance);
    cursor.x = end.x;
    cursor.y = end.y;
    out
}

/// A centered run that is no wider than its span is drawn whole: it is
/// never cut and never closed with an ellipsis.
pub proof fn lemma_centered_fits(glyphs: Seq<ShapedGlyph>, x: int, min_x: int, max_x: int)
    requires
        2 * spec_width(glyphs) <= max_x - min_x,
    ensures
        !needs_ellipsis(glyphs, centered_start(glyphs, x, min_x, max_x), max_x),
        forall|ellipsis_advance: int|
            #[trigger] spec_kept(
                glyphs,
                centered_start(glyphs, x, min_x, max_x),
                max_x,
                ellipsis_advance,
            ) == glyphs.len(),
{
}

/// No glyph of a left-aligned run reaches beyond `max_x`: neither the pen
/// after each glyph that is drawn, nor the right edge of the ellipsis.
///
/// This holds where no glyph moves the pen to the left, and where the
/// ellipsis alone fits between the start of the run and `max_x`. A span
/// narrower than the ellipsis still gets the ellipsis, which then sticks
/// out.
pub proof fn lemma_left_aligned_stays_inside(
    glyphs: Seq<ShapedGlyph>,
    x: int,
    max_x: int,
    ellipsis_advance: int,
)
    requires
        forall|k: int| 0 <= k < glyphs.len() ==> (#[trigger] glyphs[k]).x_advance >= 0,
        0 <= ellipsis_advance,
        x + 2 * ellipsis_advance <= max_x,
    ensures
        ({
            let kept = spec_kept(glyphs, x, max_x, ellipsis_advance);
            &&& 0 <= kept <= glyphs.len()
            &&& forall|i: int| 0 <= i < kept ==> x + 2 * #[trigger] sum_x(glyphs, i + 1) <= max_x
            &&& needs_ellipsis(glyphs, x, max_x) ==> x + 2 * sum_x(glyphs, kept) + 2
                * ellipsis_advance <= max_x
        }),
{
    let n = glyphs.len() as int;
    let kept = spec_kept(glyphs, x, max_x, ellipsis_advance);
    if needs_ellipsis(glyphs, x, max_x) {
        let threshold = cut_threshold(glyphs, x, max_x, ellipsis_advance);
        lemma_kept_from(glyphs, threshold, n);
        if n > 0 {
            assert(2 * tail_x(glyphs, 0) >= threshold);
            assert(2 * tail_x(glyphs, kept) >= threshold);
        }
    }
    assert forall|i: int| 0 <= i < kept implies x + 2 * #[trigger] sum_x(glyphs, i + 1)
        <= max_x by {
        lemma_sum_monotonic(glyphs, i + 1, kept);
        if !needs_ellipsis(glyphs, x, max_x) {
            lemma_sum_monotonic(glyphs, kept, n);
        }
    }
}

/// How far a glyph moves the pen in a tabular layout, in half font units:
/// a digit by the width of the digit cell, any other glyph by its own
/// advance.
pub open spec fn cell_advance(glyph: ShapedGlyph, digits: Seq<u32>, digit_width: int) -> int {
    if digits.contains(glyph.id) {
        2 * digit_width
    } else {
        2 * glyph.x_advance
    }
}

/// How far the glyphs from index `k` to the end move the pen in a tabular
/// layout, in half font units.
pub open spec fn tabular_tail(
    glyphs: Seq<ShapedGlyph>,
    digits: Seq<u32>,
    digit_width: int,
    k: int,
) -> int
    decreases glyphs.len() - k,
{
    if k < 0 || k >= glyphs.len() {
        0
    } else {
        cell_advance(glyphs[k], digits, digit_width) + tabular_tail(
            glyphs,
            digits,
            digit_width,
            k + 1,
        )
    }
}

/// How far a glyph is drawn to the right of the pen in a tabular layout, in
/// half font units: its own offset, and for a digit half of what its cell is
/// wider than the digit.
pub open spec fn cell_offset(glyph: ShapedGlyph, digits: Seq<u32>, digit_width: int) -> int {
    if digits.contains(glyph.id) {
        2 * glyph.x_offset + (digit_width - glyph.x_advance)
    } else {
        2 * glyph.x_offset
    }
}

/// Tells whether a glyph is one of the ten digit glyphs.
pub fn is_digit_glyph(digits: &[u32; 10], id: u32) -> (found: bool)
    ensures
        found == digits@.contains(id),
{
    let mut i: usize = 0;
    while i < 10
        invariant
            0 <= i <= 10,
            forall|j: int| 0 <= j < i ==> digits@[j] != id,
        decreases 10 - i,
    {
        if digits[i] == id {
            return true;
        }
        i = i + 1;
    }
    false
}

/// What a tabular layout of `glyphs` that ends at `(x0, y0)` gives: the
/// glyphs from the last to the first, each drawn in its cell, and the pen
/// `(x1, y1)` at the start of the run.
pub open spec fn is_tabular(
    glyphs: Seq<ShapedGlyph>,
    digits: Seq<u32>,
    digit_width: int,
    x0: int,
    y0: int,
    out: Seq<PositionedGlyph>,
    x1: int,
    y1: int,
) -> bool {
    &&& out.len() == glyphs.len()
    &&& forall|k: int|
        0 <= k < out.len() ==> {
            let i = glyphs.len() - 1 - k;
            placed(
                #[trigger] out[k],
                glyphs[i].id,
                x0 - tabular_tail(glyphs, digits, digit_width, i) + cell_offset(
                    glyphs[i],
                    digits,
                    digit_width,
                ),
                y0 - 2 * tail_y(glyphs, i) + 2 * glyphs[i].y_offset,
            )
        }
    &&& x1 == x0 - tabular_tail(glyphs, digits, digit_width, 0)
    &&& y1 == y0 - 2 * sum_y(glyphs, glyphs.len() as int)
}

/// Lays a run of numbers out so that it ends at the cursor, with every
/// digit in a cell of the same width.
///
/// The glyphs are placed from the last to the first, and come out in that
/// order. A digit moves the pen to the left by `digit_width` and is centered
/// in that cell; any other glyph moves the pen by its own advance. The
/// cursor is left at the start of the run.
pub fn layout_tabular_numbers(
    glyphs: &Vec<ShapedGlyph>,
    cursor: &mut Cursor,
    digits: &[u32; 10],
    digit_width: u16,
) -> (out: Vec<PositionedGlyph>)
    requires
        old(cursor).in_range(),
    ensures
        is_tabular(
            glyphs@,
            digits@,
            digit_width as int,
            old(cursor).x as int,
            old(cursor).y as int,
            out@,
            final(cursor).x as int,
            final(cursor).y as int,
        ),
        -0x1_0000_0000 * glyphs.len() <= old(cursor).x - final(cursor).x <= 0x1_0000_0000
            * glyphs.len(),
{
    let n: usize = glyphs.len();
    let x0: i128 = cursor.x;
    let y0: i128 = cursor.y;
    let mut out: Vec<PositionedGlyph> = Vec::new();
    let mut i: usize = n;
    let mut pen_x: i128 = x0;
    let mut pen_y: i128 = y0;
    proof {
        lemma_sum_bounds(glyphs@, n as int);
    }
    while i > 0
        invariant
            n == glyphs.len(),
            0 <= i <= n,
            coordinate_in_range(x0 as int),
            coordinate_in_range(y0 as int),
            pen_x == x0 - tabular_tail(glyphs@, digits@, digit_width as int, i as int),
            -(n - i) * 0x1_0000_0000 <= x0 - pen_x <= (n - i) * 0x1_0000_0000,
            pen_y == y0 - 2 * tail_y(glyphs@, i as int),
            -(n as int) * 0x8000_0000 <= sum_y(glyphs@, n as int) <= n * 0x8000_0000,
            out.len() == n - i,
            forall|k: int|
                0 <= k < out.len() ==> placed(
                    #[trigger] out[k],
                    glyphs[n - 1 - k].id,
                    x0 - tabular_tail(glyphs@, digits@, digit_width as int, n - 1 - k)
                        + cell_offset(glyphs[n - 1 - k], digits@, digit_width as int),
                    y0 - 2 * tail_y(glyphs@, n - 1 - k) + 2 * glyphs[n - 1 - k].y_offset,
                ),
        decreases i,
    {
        proof {
            lemma_sum_bounds(glyphs@, i as int);
            lemma_sum_bounds(glyphs@, i as int - 1);
        }
        i = i - 1;
        let g: ShapedGlyph = glyphs[i];
        let x: i128;
        if is_digit_glyph(digits, g.id) {
            pen_x = pen_x - 2 * (digit_width as i128);
            x = pen_x + 2 * (g.x_offset as i128) + (digit_width as i128 - g.x_advance as i128);
        } else {
            pen_x = pen_x - 2 * (g.x_advance as i128);
            x = pen_x + 2 * (g.x_offset as i128);
        }
        pen_y = pen_y - 2 * (g.y_advance as i128);
        out.push(PositionedGlyph { id: g.id, x, y: pen_y + 2 * (g.y_offset as i128) });
    }
    cursor.x = pen_x;
    cursor.y = pen_y;
    out
}

/// In a tabular layout every digit moves the pen by the same amount, the
/// width of the digit cell, whatever the advance of its own glyph is.
pub proof fn lemma_digits_share_advance(
    glyphs: Seq<ShapedGlyph>,
    digits: Seq<u32>,
    digit_width: int,
    i: int,
)
    requires
        0 <= i < glyphs.len(),
        digits.contains(glyphs[i].id),
    ensures
        tabular_tail(glyphs, digits, digit_width, i) - tabular_tail(
            glyphs,
            digits,
            digit_width,
            i + 1,
        ) == 2 * digit_width,
{
}

} // verus!
