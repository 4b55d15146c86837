//! Visual style of Material Symbols icons.

use vstd::prelude::*;

verus! {
/// Visual style variant for Material Symbols icons; maps to `rzi-{style}`.
#[derive(Debug, Clone, Copy, PartialEq, Eq, Structural)]
pub enum IconStyle {
    /// Outlined strokes, no fill.
    Outlined,
    /// Solid filled shapes.
    Filled,
    /// Rounded corners and strokes.
    Rounded,
    /// Sharp corners and geometric precision.
    Sharp,
}

impl IconStyle {
    /// The lowercase name of the style.
    pub open spec fn token_of(self) -> Seq<char> {
        match self {
            IconStyle::Outlined => "outlined"@,
            IconStyle::Filled => "filled"@,
            IconStyle::Rounded => "rounded"@,
            IconStyle::Sharp => "sharp"@,
        }
    }

    /// Returns the lowercase token appended to `rzi-` to form the CSS class.
    pub fn as_str(&self) -> (s: &'static str)
        ensures
            s@ == self.token_of(),
    {
        match self {
            IconStyle::Outlined => "outlined",
            IconStyle::Filled => "filled",
            IconStyle::Rounded => "rounded",
            IconStyle::Sharp => "sharp",
        }
    }

}

} // verus!
