//! The values a layout is configured with: colors, gradients and the font a
//! user asks for.

use vstd::prelude::*;

verus! {

/// A color with an alpha channel. Each channel is a 32-bit float between 0
/// and 1 and is held as its bit pattern: the library carries and compares
/// colors, it never computes with them.
#[derive(Clone, Copy, Debug, PartialEq, Eq, Structural)]
pub struct Color {
    /// The bit pattern of the red channel.
    pub red: u32,
    /// The bit pattern of the green channel.
    pub green: u32,
    /// The bit pattern of the blue channel.
    pub blue: u32,
    /// The bit pattern of the alpha channel.
    pub alpha: u32,
}

/// The bit pattern of the float 1.0.
pub const CHANNEL_ONE: u32 = 0x3F80_0000;

/// The bit pattern of the float 0.0.
pub const CHANNEL_ZERO: u32 = 0;

impl Color {
    /// Builds a color from the bit patterns of its four channels.
    pub fn from_bits(red: u32, green: u32, blue: u32, alpha: u32) -> (color: Color)
        ensures
            color == (Color { red, green, blue, alpha }),
    {
        Color { red, green, blue, alpha }
    }

    /// Opaque white.
    pub fn white() -> (color: Color)
        ensures
            color == (Color {
                red: CHANNEL_ONE,
                green: CHANNEL_ONE,
                blue: CHANNEL_ONE,
                alpha: CHANNEL_ONE,
            }),
    {
        Color { red: CHANNEL_ONE, green: CHANNEL_ONE, blue: CHANNEL_ONE, alpha: CHANNEL_ONE }
    }

    /// A color that leaves what lies below it untouched.
    pub fn transparent() -> (color: Color)
        ensures
            color == (Color {
                red: CHANNEL_ZERO,
                green: CHANNEL_ZERO,
                blue: CHANNEL_ZERO,
                alpha: CHANNEL_ZERO,
            }),
    {
        Color { red: CHANNEL_ZERO, green: CHANNEL_ZERO, blue: CHANNEL_ZERO, alpha: CHANNEL_ZERO }
    }
}

/// How a surface is filled.
#[derive(Clone, Copy, Debug, PartialEq, Eq, Structural)]
pub enum Gradient {
    /// Nothing is drawn.
    Transparent,
    /// A single color.
    Plain(Color),
    /// A blend from the first color at the top to the second at the bottom.
    Vertical(Color, Color),
    /// A blend from the first color on the left to the second on the right.
    Horizontal(Color, Color),
}

/// The direction in which a layout stacks its components.
#[derive(Clone, Copy, Debug, PartialEq, Eq, Structural)]
pub enum LayoutDirection {
    /// Components follow each other from top to bottom.
    Vertical,
    /// Components follow each other from left to right.
    Horizontal,
}

/// Whether a font is upright or slanted.
#[derive(Clone, Copy, Debug, PartialEq, Eq, Structural)]
pub enum FontStyle {
    /// Upright.
    Normal,
    /// Slanted.
    Italic,
}

/// How bold a font is, in the steps of the CSS weight scale.
#[derive(Clone, Copy, Debug, PartialEq, Eq, Structural)]
pub enum FontWeight {
    /// Weight 100.
    Thin,
    /// Weight 200.
    ExtraLight,
    /// Weight 300.
    Light,
    /// Weight 350.
    SemiLight,
    /// Weight 400.
    Normal,
    /// Weight 500.
    Medium,
    /// Weight 600.
    SemiBold,
    /// Weight 700.
    Bold,
    /// Weight 800.
    ExtraBold,
    /// Weight 900.
    Black,
    /// Weight 950.
    ExtraBlack,
}

/// How wide a font is, as a percentage of its normal width.
#[derive(Clone, Copy, Debug, PartialEq, Eq, Structural)]
pub enum FontStretch {
    /// 50%.
    UltraCondensed,
    /// 62.5%.
    ExtraCondensed,
    /// 75%.
    Condensed,
    /// 87.5%.
    SemiCondensed,
    /// 100%.
    Normal,
    /// 112.5%.
    SemiExpanded,
    /// 125%.
    Expanded,
    /// 150%.
    ExtraExpanded,
    /// 200%.
    UltraExpanded,
}

impl FontStyle {
    /// The setting of the italic axis `ital` written the way a shaper reads
    /// variation settings: 0 for upright, 1 for italic.
    pub open spec fn spec_axis_setting(self) -> Seq<char> {
        match self {
            FontStyle::Normal => "ital=0"@,
            FontStyle::Italic => "ital=1"@,
        }
    }

    /// Returns [`Self::spec_axis_setting`].
    pub fn axis_setting(&self) -> (setting: &'static str)
        ensures
            setting@ == self.spec_axis_setting(),
    {
        match self {
            FontStyle::Normal => "ital=0",
            FontStyle::Italic => "ital=1",
        }
    }
}

impl FontWeight {
    /// The numeric CSS weight.
    pub open spec fn spec_value(self) -> int {
        match self {
            FontWeight::Thin => 100,
            FontWeight::ExtraLight => 200,
            FontWeight::Light => 300,
            FontWeight::SemiLight => 350,
            FontWeight::Normal => 400,
            FontWeight::Medium => 500,
            FontWeight::SemiBold => 600,
            FontWeight::Bold => 700,
            FontWeight::ExtraBold => 800,
            FontWeight::Black => 900,
            FontWeight::ExtraBlack => 950,
        }
    }

    /// Returns the numeric CSS weight.
    pub fn value(&self) -> (weight: u16)
        ensures
            weight as int == self.spec_value(),
    {
        match self {
            FontWeight::Thin => 100,
            FontWeight::ExtraLight => 200,
            FontWeight::Light => 300,
            FontWeight::SemiLight => 350,
            FontWeight::Normal => 400,
            FontWeight::Medium => 500,
            FontWeight::SemiBold => 600,
            FontWeight::Bold => 700,
            FontWeight::ExtraBold => 800,
            FontWeight::Black => 900,
            FontWeight::ExtraBlack => 950,
        }
    }

    /// The setting of the weight axis `wght`: the numeric CSS weight.
    pub open spec fn spec_axis_setting(self) -> Seq<char> {
        match self {
            FontWeight::Thin => "wght=100"@,
            FontWeight::ExtraLight => "wght=200"@,
            FontWeight::Light => "wght=300"@,
            FontWeight::SemiLight => "wght=350"@,
            FontWeight::Normal => "wght=400"@,
            FontWeight::Medium => "wght=500"@,
            FontWeight::SemiBold => "wght=600"@,
            FontWeight::Bold => "wght=700"@,
            FontWeight::ExtraBold => "wght=800"@,
            FontWeight::Black => "wght=900"@,
            FontWeight::ExtraBlack => "wght=950"@,
        }
    }

    /// Returns [`Self::spec_axis_setting`].
    pub fn axis_setting(&self) -> (setting: &'static str)
        ensures
            setting@ == self.spec_axis_setting(),
    {
        match self {
            FontWeight::Thin => "wght=100",
            FontWeight::ExtraLight => "wght=200",
            FontWeight::Light => "wght=300",
            FontWeight::SemiLight => "wght=350",
            FontWeight::Normal => "wght=400",
            FontWeight::Medium => "wght=500",
            FontWeight::SemiBold => "wght=600",
            FontWeight::Bold => "wght=700",
            FontWeight::ExtraBold => "wght=800",
            FontWeight::Black => "wght=900",
            FontWeight::ExtraBlack => "wght=950",
        }
    }
}

impl FontStretch {
    /// The stretch in tenths of a percent of the normal width.
    pub open spec fn spec_per_mille(self) -> int {
        match self {
            FontStretch::UltraCondensed => 500,
            FontStretch::ExtraCondensed => 625,
            FontStretch::Condensed => 750,
            FontStretch::SemiCondensed => 875,
            FontStretch::Normal => 1000,
            FontStretch::SemiExpanded => 1125,
            FontStretch::Expanded => 1250,
            FontStretch::ExtraExpanded => 1500,
            FontStretch::UltraExpanded => 2000,
        }
    }

    /// Returns the stretch in tenths of a percent of the normal width.
    pub fn per_mille(&self) -> (stretch: u16)
        ensures
            stretch as int == self.spec_per_mille(),
    {
        match self {
            FontStretch::UltraCondensed => 500,
            FontStretch::ExtraCondensed => 625,
            FontStretch::Condensed => 750,
            FontStretch::SemiCondensed => 875,
            FontStretch::Normal => 1000,
            FontStretch::SemiExpanded => 1125,
            FontStretch::Expanded => 1250,
            FontStretch::ExtraExpanded => 1500,
            FontStretch::UltraExpanded => 2000,
        }
    }

    /// The setting of the width axis `wdth`: the stretch as a percentage.
    pub open spec fn spec_axis_setting(self) -> Seq<char> {
        match self {
            FontStretch::UltraCondensed => "wdth=50"@,
            FontStretch::ExtraCondensed => "wdth=62.5"@,
            FontStretch::Condensed => "wdth=75"@,
            FontStretch::SemiCondensed => "wdth=87.5"@,
            FontStretch::Normal => "wdth=100"@,
            FontStretch::SemiExpanded => "wdth=112.5"@,
            FontStretch::Expanded => "wdth=125"@,
            FontStretch::ExtraExpanded => "wdth=150"@,
            FontStretch::UltraExpanded => "wdth=200"@,
        }
    }

    /// Returns [`Self::spec_axis_setting`].
    pub fn axis_setting(&self) -> (setting: &'static str)
        ensures
            setting@ == self.spec_axis_setting(),
    {
        match self {
            FontStretch::UltraCondensed => "wdth=50",
            FontStretch::ExtraCondensed => "wdth=62.5",
            FontStretch::Condensed => "wdth=75",
            FontStretch::SemiCondensed => "wdth=87.5",
            FontStretch::Normal => "wdth=100",
            FontStretch::SemiExpanded => "wdth=112.5",
            FontStretch::Expanded => "wdth=125",
            FontStretch::ExtraExpanded => "wdth=150",
            FontStretch::UltraExpanded => "wdth=200",
        }
    }
}

/// A font a user asks for, by the name of its family and three properties.
pub struct Font {
    /// The name of the font family.
    pub family: String,
    /// Whether the font is upright or slanted.
    pub style: FontStyle,
    /// How bold the font is.
    pub weight: FontWeight,
    /// How wide the font is.
    pub stretch: FontStretch,
}

impl Font {
    /// Whether two fonts ask for the same family with the same properties.
    pub open spec fn same(&self, other: &Font) -> bool {
        &&& self.family@ == other.family@
        &&& self.style == other.style
        &&& self.weight == other.weight
        &&& self.stretch == other.stretch
    }

    /// Tells whether two fonts ask for the same family with the same
    /// properties.
    pub fn is_same(&self, other: &Font) -> (same: bool)
        ensures
            same == self.same(other),
    {
        self.family == other.family && self.style == other.style && self.weight == other.weight
            && self.stretch == other.stretch
    }

    /// Copies the font.
    pub fn duplicate(&self) -> (copy: Font)
        ensures
            copy.same(self),
            copy.family@ == self.family@,
            copy.style == self.style,
            copy.weight == self.weight,
            copy.stretch == self.stretch,
    {
        Font {
            family: self.family.clone(),
            style: self.style,
            weight: self.weight,
            stretch: self.stretch,
        }
    }
}

/// Whether two optional fonts ask for the same thing.
pub open spec fn same_font(a: &Option<Font>, b: &Option<Font>) -> bool {
    match (a, b) {
        (None, None) => true,
        (Some(a), Some(b)) => a.same(b),
        _ => false,
    }
}

/// Tells whether two optional fonts ask for the same thing.
pub fn is_same_font(a: &Option<Font>, b: &Option<Font>) -> (same: bool)
    ensures
        same == same_font(a, b),
{
    match (a, b) {
        (None, None) => true,
        (Some(a), Some(b)) => a.is_same(b),
        _ => false,
    }
}

/// The value of a setting.
pub enum Value {
    /// A switch.
    Bool(bool),
    /// A text.
    String(String),
    /// A color, or the choice left to the layout.
    OptionalColor(Option<Color>),
    /// A gradient.
    Gradient(Gradient),
}

/// The meaning of a value, with texts taken by their characters.
pub enum ValueView {
    /// A switch.
    Bool(bool),
    /// A text.
    String(Seq<char>),
    /// A color, or the choice left to the layout.
    OptionalColor(Option<Color>),
    /// A gradient.
    Gradient(Gradient),
}

impl View for Value {
    type V = ValueView;

    open spec fn view(&self) -> ValueView {
        match self {
            Value::Bool(b) => ValueView::Bool(*b),
            Value::String(s) => ValueView::String(s@),
            Value::OptionalColor(c) => ValueView::OptionalColor(*c),
            Value::Gradient(g) => ValueView::Gradient(*g),
        }
    }
}

impl Value {
    /// Takes the switch out of the value.
    pub fn into_bool(self) -> (b: Option<bool>)
        ensures
            b == match self {
                Value::Bool(v) => Some(v),
                _ => None::<bool>,
            },
    {
        match self {
            Value::Bool(v) => Some(v),
            _ => None,
        }
    }
}

/// A setting as it is shown to a user: its name and its value.
pub struct Field {
    /// The name of the setting.
    pub text: String,
    /// The value of the setting.
    pub value: Value,
}

impl Field {
    /// Puts a name and a value together.
    pub fn new(text: String, value: Value) -> (field: Field)
        ensures
            field.text@ == text@,
            field.value@ == value@,
    {
        Field { text, value }
    }

    /// Whether the field has the given name and value.
    pub open spec fn is(&self, text: Seq<char>, value: ValueView) -> bool {
        self.text@ == text && self.value@ == value
    }
}

/// The settings of a component as they are shown to a user.
pub struct SettingsDescription {
    /// The settings, in the order of their indices.
    pub fields: Vec<Field>,
}

impl SettingsDescription {
    /// Describes settings by the given fields.
    pub fn with_fields(fields: Vec<Field>) -> (description: SettingsDescription)
        ensures
            description.fields == fields,
    {
        SettingsDescription { fields }
    }
}

} // verus!
