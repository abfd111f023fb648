//! The state of a layout: what the renderer is asked to draw.

use crate::component::{graph, key_value, text};
use crate::settings::{Font, Gradient, LayoutDirection};
use vstd::prelude::*;

verus! {

/// What one component of a layout shows.
pub enum ComponentState {
    /// Empty space of a given size in pseudo pixels.
    BlankSpace {
        /// The size in pseudo pixels.
        size: u32,
    },
    /// A timer with a second timer for the current segment.
    DetailedTimer,
    /// A graph of how far ahead or behind the run was at every split.
    Graph(graph::State),
    /// A key with its value.
    KeyValue(key_value::State),
    /// A line between two components.
    Separator,
    /// The list of splits.
    Splits {
        /// The number of splits that are shown.
        splits: u32,
        /// Whether every split takes two rows.
        display_two_rows: bool,
        /// Whether a row of column labels is shown above the splits.
        column_labels: bool,
    },
    /// Any given text.
    Text(text::State),
    /// The timer, of a given height in pseudo pixels.
    Timer {
        /// The height in pseudo pixels.
        height: u32,
    },
    /// The title of the run.
    Title,
}

/// What a layout shows.
pub struct LayoutState {
    /// The components, in the order they are stacked.
    pub components: Vec<ComponentState>,
    /// The direction in which the components are stacked.
    pub direction: LayoutDirection,
    /// The font for the timer. `None` selects the built-in one.
    pub timer_font: Option<Font>,
    /// The font for times. `None` selects the built-in one.
    pub times_font: Option<Font>,
    /// The font for text. `None` selects the built-in one.
    pub text_font: Option<Font>,
    /// The background of the whole layout.
    pub background: Gradient,
}

} // verus!
