//! The components a layout is made of, as far as the renderer reads them.

pub mod graph;
pub mod key_value;
pub mod slideshow;
pub mod text;

use crate::settings::{Color, Gradient};
use vstd::prelude::*;

verus! {

/// The background that components showing a key and a value start out
/// with: white, fading from an alpha of 0.06 at the top to one of 0.005 at
/// the bottom.
pub fn default_key_value_gradient() -> (gradient: Gradient)
    ensures
        gradient == spec_default_key_value_gradient(),
{
    Gradient::Vertical(
        Color { red: 0x3F80_0000, green: 0x3F80_0000, blue: 0x3F80_0000, alpha: 0x3D75_C28F },
        Color { red: 0x3F80_0000, green: 0x3F80_0000, blue: 0x3F80_0000, alpha: 0x3BA3_D70A },
    )
}

/// The value of [`default_key_value_gradient`].
pub open spec fn spec_default_key_value_gradient() -> Gradient {
    Gradient::Vertical(
        Color { red: 0x3F80_0000, green: 0x3F80_0000, blue: 0x3F80_0000, alpha: 0x3D75_C28F },
        Color { red: 0x3F80_0000, green: 0x3F80_0000, blue: 0x3F80_0000, alpha: 0x3BA3_D70A },
    )
}

} // verus!
