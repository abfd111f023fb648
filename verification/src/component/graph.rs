//! The state of the graph component, as far as the renderer reads it.

use crate::settings::Color;
use vstd::prelude::*;

verus! {

/// A point of the graph.
#[derive(Clone, Copy, Debug, PartialEq, Eq, Structural)]
pub struct Point {
    /// How far to the right the point lies, from 0 at the left edge to 1
    /// at the right edge, as the bit pattern of a 32-bit float.
    pub x: u32,
    /// How far down the point lies, from 0 at the top to 1 at the bottom,
    /// as the bit pattern of a 32-bit float.
    pub y: u32,
    /// Whether the segment that ends in the point is a best segment.
    pub is_best_segment: bool,
}

/// What the graph component shows. The graph is described on a square of
/// side 1. Every coordinate is held as the bit pattern of its 32-bit float:
/// the renderer decides what is drawn and in which order, and computes with
/// none of them.
pub struct State {
    /// The points of the graph. The first point is its origin.
    pub points: Vec<Point>,
    /// The heights of the horizontal grid lines.
    pub horizontal_grid_lines: Vec<u32>,
    /// The positions of the vertical grid lines.
    pub vertical_grid_lines: Vec<u32>,
    /// The height of the middle line, which parts the two backgrounds.
    pub middle: u32,
    /// Whether the last point shows the live delta rather than a split.
    pub is_live_delta_active: bool,
    /// The height of the graph in pseudo pixels.
    pub height: u32,
    /// The color of the background above the middle line.
    pub top_background_color: Color,
    /// The color of the background below the middle line.
    pub bottom_background_color: Color,
    /// The color of the grid lines.
    pub grid_lines_color: Color,
    /// The color of the lines that connect the points.
    pub graph_lines_color: Color,
    /// The color of the area under the live delta.
    pub partial_fill_color: Color,
    /// The color of the area under the splits.
    pub complete_fill_color: Color,
    /// The color of a segment that is a best segment.
    pub best_segment_color: Color,
}

} // verus!
