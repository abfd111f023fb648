//! The text component, which shows any given text: either a single
//! centered text, or a text split into a left and a right part, as suits a
//! label and its value.

use super::{default_key_value_gradient, spec_default_key_value_gradient};
use crate::settings::{Color, Field, Gradient, SettingsDescription, Value, ValueView};
use crate::whitespace::{blank, is_blank};
use vstd::prelude::*;
use vstd::string::StringExecFns;

verus! {

/// The text component.
pub struct Component {
    settings: Settings,
}

/// The settings of the text component.
pub struct Settings {
    /// The background shown behind the component.
    pub background: Gradient,
    /// Whether the left and the right text are shown in two rows.
    pub display_two_rows: bool,
    /// The color of the left part, or of the whole text where it is not
    /// split. `None` leaves the choice to the layout.
    pub left_center_color: Option<Color>,
    /// The color of the right part. `None` leaves the choice to the layout.
    pub right_color: Option<Color>,
    /// The text to show.
    pub text: Text,
}

/// The text that is shown.
pub enum Text {
    /// A single centered text.
    Center(String),
    /// A text split into a left and a right part.
    Split(String, String),
}

/// The meaning of a [`Text`], with texts taken by their characters.
pub enum TextView {
    /// A single centered text.
    Center(Seq<char>),
    /// A text split into a left and a right part.
    Split(Seq<char>, Seq<char>),
}

impl View for Text {
    type V = TextView;

    open spec fn view(&self) -> TextView {
        match self {
            Text::Center(text) => TextView::Center(text@),
            Text::Split(left, right) => TextView::Split(left@, right@),
        }
    }
}

impl TextView {
    /// The two parts of a split text as one: the left part, the right
    /// part, and a space between them where neither is empty. A centered
    /// text as it is.
    pub open spec fn joined(self) -> Seq<char> {
        match self {
            TextView::Center(text) => text,
            TextView::Split(left, right) => if left.len() > 0 && right.len() > 0 {
                left + seq![' '] + right
            } else {
                left + right
            },
        }
    }
}

impl Text {
    /// Returns whether the text is split into a left and a right part.
    pub fn is_split(&self) -> (split: bool)
        ensures
            split == (self@ is Split),
    {
        match self {
            Text::Split(_, _) => true,
            Text::Center(_) => false,
        }
    }

    /// Sets the centered text. A split text becomes a centered one.
    pub fn set_center(&mut self, text: String)
        ensures
            final(self)@ == TextView::Center(text@),
    {
        *self = Text::Center(text);
    }

    /// Sets the left text. A centered text becomes a split one, with an
    /// empty right text.
    pub fn set_left(&mut self, text: String)
        ensures
            final(self)@ == match old(self)@ {
                TextView::Split(_, right) => TextView::Split(text@, right),
                TextView::Center(_) => TextView::Split(text@, Seq::empty()),
            },
    {
        let right = match self {
            Text::Split(_, right) => right.clone(),
            Text::Center(_) => String::new(),
        };
        *self = Text::Split(text, right);
    }

    /// Sets the right text. A centered text becomes a split one, with an
    /// empty left text.
    pub fn set_right(&mut self, text: String)
        ensures
            final(self)@ == match old(self)@ {
                TextView::Split(left, _) => TextView::Split(left, text@),
                TextView::Center(_) => TextView::Split(Seq::empty(), text@),
            },
    {
        let left = match self {
            Text::Split(left, _) => left.clone(),
            Text::Center(_) => String::new(),
        };
        *self = Text::Split(left, text);
    }

    /// Copies the text.
    pub fn duplicate(&self) -> (copy: Text)
        ensures
            copy@ == self@,
    {
        match self {
            Text::Center(text) => Text::Center(text.clone()),
            Text::Split(left, right) => Text::Split(left.clone(), right.clone()),
        }
    }

    /// Returns [`TextView::joined`] of the text.
    pub fn joined(&self) -> (name: String)
        ensures
            name@ == self@.joined(),
    {
        match self {
            Text::Center(text) => text.clone(),
            Text::Split(left, right) => {
                let mut name = left.clone();
                if !left.as_str().is_empty() && !right.as_str().is_empty() {
                    proof {
                        reveal_strlit(" ");
                    }
                    name.append(" ");
                    assert(" "@ =~= seq![' ']);
                }
                name.append(right.as_str());
                name
            },
        }
    }
}

/// What the text component shows.
pub struct State {
    /// The background shown behind the component.
    pub background: Gradient,
    /// Whether the left and the right text are shown in two rows.
    pub display_two_rows: bool,
    /// The color of the left part, or of the whole text where it is not
    /// split. `None` leaves the choice to the layout.
    pub left_center_color: Option<Color>,
    /// The color of the right part. `None` leaves the choice to the layout.
    pub right_color: Option<Color>,
    /// The text to show.
    pub text: Text,
}

impl Settings {
    /// The settings a new text component starts out with: the background
    /// of key and value components, one row, colors left to the layout, and
    /// an empty centered text.
    pub open spec fn is_default(&self) -> bool {
        &&& self.background == spec_default_key_value_gradient()
        &&& !self.display_two_rows
        &&& self.left_center_color is None
        &&& self.right_color is None
        &&& self.text@ == TextView::Center(Seq::empty())
    }

    /// Whether two settings say the same.
    pub open spec fn same(&self, other: &Settings) -> bool {
        &&& self.background == other.background
        &&& self.display_two_rows == other.display_two_rows
        &&& self.left_center_color == other.left_center_color
        &&& self.right_color == other.right_color
        &&& self.text@ == other.text@
    }
}

impl Default for Settings {
    fn default() -> (settings: Settings)
        ensures
            settings.is_default(),
    {
        Settings {
            background: default_key_value_gradient(),
            display_two_rows: false,
            left_center_color: None,
            right_color: None,
            text: Text::Center(String::new()),
        }
    }
}

/// The number of settings a component with the given text has.
pub open spec fn setting_count(text: TextView) -> int {
    if text is Split {
        7
    } else {
        4
    }
}

impl Component {
    /// The settings of the component.
    pub closed spec fn spec_settings(&self) -> Settings {
        self.settings
    }

    /// The name shown for the component: its text, or `Text` where the
    /// text holds nothing but white space.
    pub open spec fn spec_name(&self) -> Seq<char> {
        let joined = self.spec_settings().text@.joined();
        if is_blank(joined) {
            "Text"@
        } else {
            joined
        }
    }

    /// Creates a new text component.
    pub fn new() -> (component: Component)
        ensures
            component.spec_settings().is_default(),
    {
        Component { settings: Settings::default() }
    }

    /// Creates a new text component with the given settings.
    pub fn with_settings(settings: Settings) -> (component: Component)
        ensures
            component.spec_settings() == settings,
    {
        Component { settings }
    }

    /// Accesses the settings of the component.
    pub fn settings(&self) -> (settings: &Settings)
        ensures
            *settings == self.spec_settings(),
    {
        &self.settings
    }

    /// Grants mutable access to the settings of the component.
    pub fn settings_mut(&mut self) -> (settings: &mut Settings)
        ensures
            *settings == old(self).spec_settings(),
            final(self).spec_settings() == *final(settings),
    {
        &mut self.settings
    }

    /// Returns the name of the component.
    pub fn name(&self) -> (name: String)
        ensures
            name@ == self.spec_name(),
    {
        let name = self.settings.text.joined();
        if blank(name.as_str()) {
            "Text".to_owned()
        } else {
            name
        }
    }

    /// Calculates what the component shows. Two rows are only shown for a
    /// split text.
    pub fn state(&self) -> (state: State)
        ensures
            state.background == self.spec_settings().background,
            state.display_two_rows == (self.spec_settings().text@ is Split
                && self.spec_settings().display_two_rows),
            state.left_center_color == self.spec_settings().left_center_color,
            state.right_color == self.spec_settings().right_color,
            state.text@ == self.spec_settings().text@,
    {
        State {
            background: self.settings.background,
            display_two_rows: self.settings.text.is_split() && self.settings.display_two_rows,
            left_center_color: self.settings.left_center_color,
            right_color: self.settings.right_color,
            text: self.settings.text.duplicate(),
        }
    }

    /// Describes the settings of the component, with their values, in the
    /// order of the indices that [`Self::set_value`] takes.
    ///
    /// There are four settings for a centered text: the background,
    /// whether the text is split, the text and its color. A split text has
    /// three more: the right text, its color, and whether two rows are
    /// shown.
    pub fn settings_description(&self) -> (description: SettingsDescription)
        ensures
            ({
                let s = self.spec_settings();
                let f = description.fields@;
                &&& f.len() == setting_count(s.text@)
                &&& f[0].is("Background"@, ValueView::Gradient(s.background))
                &&& f[1].is("Split"@, ValueView::Bool(s.text@ is Split))
                &&& f[3].value@ == ValueView::OptionalColor(s.left_center_color)
                &&& match s.text@ {
                    TextView::Center(text) => {
                        &&& f[2].is("Text"@, ValueView::String(text))
                        &&& f[3].text@ == "Text Color"@
                    },
                    TextView::Split(left, right) => {
                        &&& f[2].is("Left"@, ValueView::String(left))
                        &&& f[3].text@ == "Left Color"@
                        &&& f[4].is("Right"@, ValueView::String(right))
                        &&& f[5].is("Right Color"@, ValueView::OptionalColor(s.right_color))
                        &&& f[6].is("Display 2 Rows"@, ValueView::Bool(s.display_two_rows))
                    },
                }
            }),
    {
        let mut fields: Vec<Field> = Vec::new();
        fields.push(Field::new("Background".to_owned(), Value::Gradient(self.settings.background)));
        fields.push(Field::new("Split".to_owned(), Value::Bool(self.settings.text.is_split())));
        match &self.settings.text {
            Text::Center(text) => {
                fields.push(Field::new("Text".to_owned(), Value::String(text.clone())));
                fields.push(
                    Field::new(
                        "Text Color".to_owned(),
                        Value::OptionalColor(self.settings.left_center_color),
                    ),
                );
            },
            Text::Split(left, right) => {
                fields.push(Field::new("Left".to_owned(), Value::String(left.clone())));
                fields.push(
                    Field::new(
                        "Left Color".to_owned(),
                        Value::OptionalColor(self.settings.left_center_color),
                    ),
                );
                fields.push(Field::new("Right".to_owned(), Value::String(right.clone())));
                fields.push(
                    Field::new(
                        "Right Color".to_owned(),
                        Value::OptionalColor(self.settings.right_color),
                    ),
                );
                fields.push(
                    Field::new(
                        "Display 2 Rows".to_owned(),
                        Value::Bool(self.settings.display_two_rows),
                    ),
                );
            },
        }
        SettingsDescription::with_fields(fields)
    }

    /// Whether a setting can be given a value: the index names a setting,
    /// the value is of the kind the setting holds, and the right text is
    /// only set where the text is split.
    pub open spec fn accepts(&self, index: usize, value: ValueView) -> bool {
        match index {
            0 => value is Gradient,
            1 => value is Bool,
            2 => value is String,
            3 => value is OptionalColor,
            4 => value is String && self.spec_settings().text@ is Split,
            5 => value is OptionalColor,
            6 => value is Bool,
            _ => false,
        }
    }

    /// The text after the setting of the given index was given a value.
    ///
    /// Splitting a centered text makes it the left text. Joining a split
    /// text makes [`TextView::joined`] the centered text.
    pub open spec fn spec_set_text(&self, index: usize, value: ValueView) -> TextView {
        let text = self.spec_settings().text@;
        match (index, value, text) {
            (1, ValueView::Bool(true), TextView::Center(center)) => TextView::Split(
                center,
                Seq::empty(),
            ),
            (1, ValueView::Bool(false), TextView::Split(_, _)) => TextView::Center(text.joined()),
            (2, ValueView::String(new), TextView::Center(_)) => TextView::Center(new),
            (2, ValueView::String(new), TextView::Split(_, right)) => TextView::Split(new, right),
            (4, ValueView::String(new), TextView::Split(left, _)) => TextView::Split(left, new),
            _ => text,
        }
    }

    /// Whether giving the setting of the given index a value splits a
    /// centered text.
    pub open spec fn splits(&self, index: usize, value: ValueView) -> bool {
        index == 1 && value == ValueView::Bool(true) && self.spec_settings().text@ is Center
    }

    /// The background after the setting of the given index was given a
    /// value.
    pub open spec fn spec_set_background(&self, index: usize, value: ValueView) -> Gradient {
        match (index, value) {
            (0, ValueView::Gradient(background)) => background,
            _ => self.spec_settings().background,
        }
    }

    /// The color of the left or centered text after the setting of the
    /// given index was given a value.
    pub open spec fn spec_set_left_center_color(&self, index: usize, value: ValueView) -> Option<
        Color,
    > {
        match (index, value) {
            (3, ValueView::OptionalColor(color)) => color,
            _ => self.spec_settings().left_center_color,
        }
    }

    /// The color of the right text after the setting of the given index
    /// was given a value. A text that is split gives its right part the
    /// color of the left.
    pub open spec fn spec_set_right_color(&self, index: usize, value: ValueView) -> Option<Color> {
        match (index, value) {
            (5, ValueView::OptionalColor(color)) => color,
            _ => if self.splits(index, value) {
                self.spec_settings().left_center_color
            } else {
                self.spec_settings().right_color
            },
        }
    }

    /// Whether two rows are shown after the setting of the given index was
    /// given a value. A text that is split starts out with one row.
    pub open spec fn spec_set_two_rows(&self, index: usize, value: ValueView) -> bool {
        match (index, value) {
            (6, ValueView::Bool(two_rows)) => two_rows,
            _ => !self.splits(index, value) && self.spec_settings().display_two_rows,
        }
    }

    /// Sets the setting of the given index to the given value.
    pub fn set_value(&mut self, index: usize, value: Value)
        requires
            old(self).accepts(index, value@),
        ensures
            final(self).spec_settings().text@ == old(self).spec_set_text(index, value@),
            final(self).spec_settings().background == old(self).spec_set_background(
                index,
                value@,
            ),
            final(self).spec_settings().left_center_color == old(self).spec_set_left_center_color(
                index,
                value@,
            ),
            final(self).spec_settings().right_color == old(self).spec_set_right_color(
                index,
                value@,
            ),
            final(self).spec_settings().display_two_rows == old(self).spec_set_two_rows(
                index,
                value@,
            ),
    {
        match (index, value) {
            (0, Value::Gradient(background)) => {
                self.settings.background = background;
            },
            (1, Value::Bool(split)) => {
                let is_split = self.settings.text.is_split();
                if split && !is_split {
                    let center = self.settings.text.joined();
                    self.settings.right_color = self.settings.left_center_color;
                    self.settings.display_two_rows = false;
                    self.settings.text = Text::Split(center, String::new());
                } else if !split && is_split {
                    let joined = self.settings.text.joined();
                    self.settings.text = Text::Center(joined);
                }
            },
            (2, Value::String(text)) => {
                let is_split = self.settings.text.is_split();
                if is_split {
                    self.settings.text.set_left(text);
                } else {
                    self.settings.text.set_center(text);
                }
            },
            (3, Value::OptionalColor(color)) => {
                self.settings.left_center_color = color;
            },
            (4, Value::String(text)) => {
                self.settings.text.set_right(text);
            },
            (5, Value::OptionalColor(color)) => {
                self.settings.right_color = color;
            },
            (6, Value::Bool(two_rows)) => {
                self.settings.display_two_rows = two_rows;
            },
            _ => {},
        }
    }
}

} // verus!
