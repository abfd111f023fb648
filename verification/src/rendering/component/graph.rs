//! The graph component: what is drawn, and in which order.
//!
//! The graph is drawn onto a square of side 1 that is scaled to the height
//! of the component. The renderer decides here which shapes make up the
//! graph and with which colors; whoever draws them places them by the
//! coordinates of the points and grid lines they name.
//!
//! A graph without the points it takes to draw one still shows its
//! backgrounds and its grid, and nothing else.

use crate::component::graph::State;
use crate::settings::Color;
use vstd::prelude::*;

verus! {

/// Half the thickness of a grid line, in thousandths of the height of the
/// graph (0.015).
pub const GRID_LINE_WIDTH: u32 = 15;

/// The thickness of the lines that connect the points, in thousandths of
/// the height of the graph (0.025).
pub const LINE_WIDTH: u32 = 25;

/// The radius of the circle on a point, in thousandths of the height of
/// the graph (0.035).
pub const CIRCLE_RADIUS: u32 = 35;

/// One shape of the graph.
#[derive(Clone, Copy, Debug, PartialEq, Eq, Structural)]
pub enum Shape {
    /// The rectangle above the middle line, across the whole width.
    TopBackground,
    /// The rectangle below the middle line, across the whole width.
    BottomBackground,
    /// The horizontal grid line of the given index, [`GRID_LINE_WIDTH`] to
    /// either side of its position.
    HorizontalGridLine(usize),
    /// The vertical grid line of the given index, [`GRID_LINE_WIDTH`] to
    /// either side of its position.
    VerticalGridLine(usize),
    /// The area between the middle line and the segment from the first of
    /// the two points to the second.
    PartialFill(usize, usize),
    /// The area between the middle line and the graph from its origin on
    /// the left over the given number of points.
    CompleteFill(usize),
    /// The line from the first of the two points to the second,
    /// [`LINE_WIDTH`] thick.
    Line(usize, usize),
    /// The circle of [`CIRCLE_RADIUS`] on the given point.
    Circle(usize),
}

/// A shape with the color it is drawn in.
#[derive(Clone, Copy, Debug, PartialEq, Eq, Structural)]
pub struct Draw {
    /// The shape.
    pub shape: Shape,
    /// The color.
    pub color: Color,
}

/// The color of the segment that ends in the point `i`, and of the circle
/// on that point.
pub open spec fn segment_color(state: &State, i: int) -> Color {
    if state.points@[i].is_best_segment {
        state.best_segment_color
    } else {
        state.graph_lines_color
    }
}

/// The number of points that the filled area under the graph covers: all
/// of them, but for the last while it shows the live delta.
pub open spec fn filled_points(state: &State) -> int {
    if state.is_live_delta_active {
        state.points@.len() - 1
    } else {
        state.points@.len() as int
    }
}

/// The backgrounds and the grid lines.
pub open spec fn spec_grid(state: &State) -> Seq<Draw> {
    seq![
        Draw { shape: Shape::TopBackground, color: state.top_background_color },
        Draw { shape: Shape::BottomBackground, color: state.bottom_background_color },
    ] + Seq::new(
        state.horizontal_grid_lines@.len(),
        |i: int| Draw { shape: Shape::HorizontalGridLine(i as usize), color: state.grid_lines_color },
    ) + Seq::new(
        state.vertical_grid_lines@.len(),
        |i: int| Draw { shape: Shape::VerticalGridLine(i as usize), color: state.grid_lines_color },
    )
}

/// The filled areas: the area under the live delta where it is shown, and
/// the area under the graph up to there.
pub open spec fn spec_fills(state: &State) -> Seq<Draw> {
    let n = state.points@.len();
    (if state.is_live_delta_active {
        seq![
            Draw {
                shape: Shape::PartialFill((n - 2) as usize, (n - 1) as usize),
                color: state.partial_fill_color,
            },
        ]
    } else {
        Seq::empty()
    }) + seq![
        Draw {
            shape: Shape::CompleteFill(filled_points(state) as usize),
            color: state.complete_fill_color,
        },
    ]
}

/// The lines from every point to the next.
pub open spec fn spec_lines(state: &State) -> Seq<Draw> {
    Seq::new(
        (state.points@.len() - 1) as nat,
        |i: int|
            Draw {
                shape: Shape::Line(i as usize, (i + 1) as usize),
                color: segment_color(state, i + 1),
            },
    )
}

/// The circles: one on every point but the origin, and but the last point
/// while it shows the live delta.
pub open spec fn spec_circles(state: &State) -> Seq<Draw> {
    Seq::new(
        (filled_points(state) - 1) as nat,
        |i: int| Draw { shape: Shape::Circle((i + 1) as usize), color: segment_color(state, i + 1) },
    )
}

/// Whether a graph has the points it takes to draw one: one point, and
/// two where the last shows the live delta.
pub open spec fn drawable(state: &State) -> bool {
    state.points@.len() >= 1 && (state.is_live_delta_active ==> state.points@.len() >= 2)
}

/// Everything that is drawn for a graph, in the order it is drawn in:
/// what comes later is painted over what came before. The backgrounds and
/// the grid are always drawn; the fills, the lines and the circles only
/// where the graph has the points it takes.
pub open spec fn spec_render(state: &State) -> Seq<Draw> {
    if drawable(state) {
        spec_grid(state) + spec_fills(state) + spec_lines(state) + spec_circles(state)
    } else {
        spec_grid(state)
    }
}

/// Returns the color of the segment that ends in the point `i`.
fn color_of(state: &State, i: usize) -> (color: Color)
    requires
        i < state.points@.len(),
    ensures
        color == segment_color(state, i as int),
{
    if state.points[i].is_best_segment {
        state.best_segment_color
    } else {
        state.graph_lines_color
    }
}

/// Decides what is drawn for a graph, in the order it is drawn in.
pub fn render(state: &State) -> (draws: Vec<Draw>)
    ensures
        draws@ == spec_render(state),
{
    let n: usize = state.points.len();
    let mut draws: Vec<Draw> = Vec::new();
    draws.push(Draw { shape: Shape::TopBackground, color: state.top_background_color });
    draws.push(Draw { shape: Shape::BottomBackground, color: state.bottom_background_color });
    let ghost backgrounds = draws@;
    let mut i: usize = 0;
    while i < state.horizontal_grid_lines.len()
        invariant
            0 <= i <= state.horizontal_grid_lines@.len(),
            draws@ == backgrounds + Seq::new(
                i as nat,
                |k: int|
                    Draw {
                        shape: Shape::HorizontalGridLine(k as usize),
                        color: state.grid_lines_color,
                    },
            ),
        decreases state.horizontal_grid_lines@.len() - i,
    {
        draws.push(Draw { shape: Shape::HorizontalGridLine(i), color: state.grid_lines_color });
        i = i + 1;
        assert(draws@ =~= backgrounds + Seq::new(
            i as nat,
            |k: int|
                Draw {
                    shape: Shape::HorizontalGridLine(k as usize),
                    color: state.grid_lines_color,
                },
        ));
    }
    let ghost horizontal = draws@;
    let mut i: usize = 0;
    while i < state.vertical_grid_lines.len()
        invariant
            0 <= i <= state.vertical_grid_lines@.len(),
            draws@ == horizontal + Seq::new(
                i as nat,
                |k: int|
                    Draw {
                        shape: Shape::VerticalGridLine(k as usize),
                        color: state.grid_lines_color,
                    },
            ),
        decreases state.vertical_grid_lines@.len() - i,
    {
        draws.push(Draw { shape: Shape::VerticalGridLine(i), color: state.grid_lines_color });
        i = i + 1;
        assert(draws@ =~= horizontal + Seq::new(
            i as nat,
            |k: int|
                Draw { shape: Shape::VerticalGridLine(k as usize), color: state.grid_lines_color },
        ));
    }
    assert(draws@ =~= spec_grid(state));
    if n == 0 || (state.is_live_delta_active && n < 2) {
        return draws;
    }
    let len: usize = if state.is_live_delta_active {
        draws.push(
            Draw { shape: Shape::PartialFill(n - 2, n - 1), color: state.partial_fill_color },
        );
        n - 1
    } else {
        n
    };
    draws.push(Draw { shape: Shape::CompleteFill(len), color: state.complete_fill_color });
    assert(draws@ =~= spec_grid(state) + spec_fills(state));
    let ghost filled = draws@;
    let mut i: usize = 0;
    while i + 1 < n
        invariant
            0 <= i < n,
            n == state.points@.len(),
            draws@ == filled + Seq::new(
                i as nat,
                |k: int|
                    Draw {
                        shape: Shape::Line(k as usize, (k + 1) as usize),
                        color: segment_color(state, k + 1),
                    },
            ),
        decreases n - i,
    {
        draws.push(Draw { shape: Shape::Line(i, i + 1), color: color_of(state, i + 1) });
        i = i + 1;
        assert(draws@ =~= filled + Seq::new(
            i as nat,
            |k: int|
                Draw {
                    shape: Shape::Line(k as usize, (k + 1) as usize),
                    color: segment_color(state, k + 1),
                },
        ));
    }
    assert(draws@ =~= spec_grid(state) + spec_fills(state) + spec_lines(state));
    let ghost lined = draws@;
    let mut i: usize = 1;
    while i < len
        invariant
            1 <= i,
            i <= len || len == 0,
            len == filled_points(state),
            len <= n,
            n == state.points@.len(),
            draws@ == lined + Seq::new(
                (i - 1) as nat,
                |k: int|
                    Draw {
                        shape: Shape::Circle((k + 1) as usize),
                        color: segment_color(state, k + 1),
                    },
            ),
        decreases len - i,
    {
        draws.push(Draw { shape: Shape::Circle(i), color: color_of(state, i) });
        i = i + 1;
        assert(draws@ =~= lined + Seq::new(
            (i - 1) as nat,
            |k: int|
                Draw { shape: Shape::Circle((k + 1) as usize), color: segment_color(state, k + 1) },
        ));
    }
    assert(draws@ =~= spec_render(state));
    draws
}

/// One step of carrying out what is drawn. The rectangles are drawn with
/// the unit rectangle that the renderer keeps. Every other shape has a
/// path of its own, which lives from the step that builds it to the step
/// that releases it.
#[derive(Clone, Copy, Debug, PartialEq, Eq, Structural)]
pub enum Step {
    /// Fill the rectangle of a background or of a grid line with a color.
    Rectangle(Shape, Color),
    /// Build the path of a shape.
    Build(Shape),
    /// Fill the path that was built last with a color.
    Fill(Color),
    /// Stroke the path that was built last with a color.
    Stroke(Color),
    /// Release the path that was built last.
    Free,
}

/// The steps that carry out one shape: a rectangle is filled as it is; a
/// line is built, stroked and released; any other shape is built, filled
/// and released.
pub open spec fn steps_for(draw: Draw) -> Seq<Step> {
    match draw.shape {
        Shape::TopBackground | Shape::BottomBackground | Shape::HorizontalGridLine(_)
        | Shape::VerticalGridLine(_) => seq![Step::Rectangle(draw.shape, draw.color)],
        Shape::Line(_, _) => seq![Step::Build(draw.shape), Step::Stroke(draw.color), Step::Free],
        Shape::PartialFill(_, _) | Shape::CompleteFill(_) | Shape::Circle(_) => seq![
            Step::Build(draw.shape),
            Step::Fill(draw.color),
            Step::Free,
        ],
    }
}

/// The steps that carry out a list of shapes, one shape after another.
pub open spec fn spec_steps(draws: Seq<Draw>) -> Seq<Step>
    decreases draws.len(),
{
    if draws.len() == 0 {
        Seq::empty()
    } else {
        spec_steps(draws.drop_last()) + steps_for(draws.last())
    }
}

/// Whether a path is alive after the first `n` steps: one was built and
/// has not been released.
pub open spec fn holds_path(steps: Seq<Step>, n: int) -> bool
    decreases n,
{
    if n <= 0 {
        false
    } else {
        match steps[n - 1] {
            Step::Build(_) => true,
            Step::Free => false,
            _ => holds_path(steps, n - 1),
        }
    }
}

/// Whether the first `n` steps treat their paths well: a path is only
/// built while none is alive, and only filled, stroked or released while
/// it is alive. So no path is released twice or used after its release,
/// and none is lost to the next.
pub open spec fn is_tidy(steps: Seq<Step>, n: int) -> bool
    decreases n,
{
    if n <= 0 {
        true
    } else {
        &&& is_tidy(steps, n - 1)
        &&& match steps[n - 1] {
            Step::Rectangle(_, _) => true,
            Step::Build(_) => !holds_path(steps, n - 1),
            Step::Fill(_) | Step::Stroke(_) | Step::Free => holds_path(steps, n - 1),
        }
    }
}

/// Steps that follow do not change what holds of the steps before them.
proof fn lemma_steps_before(steps: Seq<Step>, more: Seq<Step>, n: int)
    requires
        0 <= n <= steps.len(),
    ensures
        holds_path(steps + more, n) == holds_path(steps, n),
        is_tidy(steps + more, n) == is_tidy(steps, n),
    decreases n,
{
    if n > 0 {
        lemma_steps_before(steps, more, n - 1);
        assert((steps + more)[n - 1] == steps[n - 1]);
    }
}

/// Every path that the steps of a list of shapes build is released, once
/// and after its last use, and no path is alive when the steps are done.
pub proof fn lemma_steps_are_tidy(draws: Seq<Draw>)
    ensures
        is_tidy(spec_steps(draws), spec_steps(draws).len() as int),
        !holds_path(spec_steps(draws), spec_steps(draws).len() as int),
    decreases draws.len(),
{
    if draws.len() > 0 {
        let before = spec_steps(draws.drop_last());
        let these = steps_for(draws.last());
        let all = before + these;
        let n = before.len() as int;
        lemma_steps_are_tidy(draws.drop_last());
        lemma_steps_before(before, these, n);
        if these.len() == 1 {
            assert(all[n] == these[0]);
        } else {
            assert(all[n] == these[0]);
            assert(all[n + 1] == these[1]);
            assert(all[n + 2] == these[2]);
            assert(holds_path(all, n + 1));
            assert(is_tidy(all, n + 1));
            assert(holds_path(all, n + 2));
            assert(is_tidy(all, n + 2));
        }
    }
}

/// Turns what is drawn into the steps that carry it out, in order.
pub fn path_steps(draws: &Vec<Draw>) -> (steps: Vec<Step>)
    ensures
        steps@ == spec_steps(draws@),
{
    let mut steps: Vec<Step> = Vec::new();
    let mut i: usize = 0;
    while i < draws.len()
        invariant
            0 <= i <= draws.len(),
            steps@ == spec_steps(draws@.take(i as int)),
        decreases draws.len() - i,
    {
        let draw: Draw = draws[i];
        let ghost before = steps@;
        proof {
            assert(draws@.take(i as int + 1).drop_last() =~= draws@.take(i as int));
            assert(draws@.take(i as int + 1).last() == draw);
        }
        match draw.shape {
            Shape::TopBackground | Shape::BottomBackground | Shape::HorizontalGridLine(_)
            | Shape::VerticalGridLine(_) => {
                steps.push(Step::Rectangle(draw.shape, draw.color));
            },
            Shape::Line(_, _) => {
                steps.push(Step::Build(draw.shape));
                steps.push(Step::Stroke(draw.color));
                steps.push(Step::Free);
            },
            Shape::PartialFill(_, _) | Shape::CompleteFill(_) | Shape::Circle(_) => {
                steps.push(Step::Build(draw.shape));
                steps.push(Step::Fill(draw.color));
                steps.push(Step::Free);
            },
        }
        assert(steps@ =~= before + steps_for(draw));
        i = i + 1;
    }
    assert(draws@.take(draws.len() as int) =~= draws@);
    steps
}

} // verus!
