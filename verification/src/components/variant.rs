//! Visual appearance variant.

use vstd::prelude::*;

verus! {
/// Visual appearance variant of a button or badge.
#[derive(Debug, Clone, Copy, PartialEq, Eq, Structural)]
pub enum Variant {
    /// Solid background in the style color. Default.
    Filled,
    /// Muted background, colored text, no border.
    Flat,
    /// Transparent background, colored border and text.
    Outlined,
    /// No background, no border — colored text only.
    Text,
}

impl Default for Variant {
    fn default() -> (r: Self)
        ensures
            r == Variant::Filled,
    {
        Variant::Filled
    }
}

} // verus!
