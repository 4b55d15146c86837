//! Spacing density of a component.

use vstd::prelude::*;

verus! {
/// Spacing density of a component; `Compact` adds the `rz-density-compact` class.
#[derive(Debug, Clone, Copy, PartialEq, Eq, Structural)]
pub enum Density {
    /// Normal spacing. Default. No CSS class added.
    Default,
    /// Reduced padding / font size.
    Compact,
}

impl Default for Density {
    fn default() -> (r: Self)
        ensures
            r == Density::Default,
    {
        Density::Default
    }
}

impl Density {
    /// The extra class of the density, if any.
    pub open spec fn class_of(self) -> Option<Seq<char>> {
        match self {
            Density::Default => None,
            Density::Compact => Some("rz-density-compact"@),
        }
    }

    /// Returns the extra CSS class to append, or `None` for `Default`.
    pub fn css_class(&self) -> (s: Option<&'static str>)
        ensures
            match s {
                Some(t) => self.class_of() == Some(t@),
                None => self.class_of() is None,
            },
    {
        match self {
            Density::Default => None,
            Density::Compact => Some("rz-density-compact"),
        }
    }

}

} // verus!
