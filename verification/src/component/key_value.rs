//! The state shared by all components that show a key and its value.

use crate::settings::{Color, Gradient};
use vstd::prelude::*;

verus! {

/// What a key and value component shows.
pub struct State {
    /// The background shown behind the component.
    pub background: Gradient,
    /// The color of the key. `None` leaves the choice to the layout.
    pub key_color: Option<Color>,
    /// The color of the value. `None` leaves the choice to the layout.
    pub value_color: Option<Color>,
    /// The key to show.
    pub key: String,
    /// The value to show.
    pub value: String,
    /// Shorter forms of the key, for when the key does not fit.
    pub key_abbreviations: Vec<String>,
    /// Whether the key and the value are shown in two rows.
    pub display_two_rows: bool,
}

} // verus!
