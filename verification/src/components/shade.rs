//! Color intensity shade.

use crate::text::ascii_lower;
use vstd::prelude::*;

verus! {
/// Color intensity shade applied on top of a color style.
#[derive(Debug, Clone, Copy, PartialEq, Eq, Structural)]
pub enum Shade {
    /// Most washed-out.
    Lighter,
    /// Slightly lighter than default.
    Light,
    /// Base color — no modification. Default.
    Default,
    /// Slightly darker than default.
    Dark,
    /// Most saturated / darkest.
    Darker,
}

impl Default for Shade {
    fn default() -> (r: Self)
        ensures
            r == Shade::Default,
    {
        Shade::Default
    }
}

impl Shade {
    /// The CSS class of the shade.
    pub open spec fn class_of(self) -> Seq<char> {
        match self {
            Shade::Lighter => "rz-shade-lighter"@,
            Shade::Light => "rz-shade-light"@,
            Shade::Default => "rz-shade-default"@,
            Shade::Dark => "rz-shade-dark"@,
            Shade::Darker => "rz-shade-darker"@,
        }
    }

    /// Returns the full CSS class for this shade (`rz-shade-{value}`).
    pub fn css_class(&self) -> (s: &'static str)
        ensures
            s@ == self.class_of(),
    {
        match self {
            Shade::Lighter => "rz-shade-lighter",
            Shade::Light => "rz-shade-light",
            Shade::Default => "rz-shade-default",
            Shade::Dark => "rz-shade-dark",
            Shade::Darker => "rz-shade-darker",
        }
    }

    /// The color token suffix of the shade.
    pub open spec fn suffix_of(self) -> Seq<char> {
        match self {
            Shade::Lighter => "lighter"@,
            Shade::Light => "light"@,
            Shade::Default => "DEFAULT"@,
            Shade::Dark => "dark"@,
            Shade::Darker => "darker"@,
        }
    }

    /// Returns the color token suffix for this shade.
    pub fn suffix(&self) -> (s: &'static str)
        ensures
            s@ == self.suffix_of(),
    {
        match self {
            Shade::Lighter => "lighter",
            Shade::Light => "light",
            Shade::Default => "DEFAULT",
            Shade::Dark => "dark",
            Shade::Darker => "darker",
        }
    }

}

/// The class of a shade is `rz-shade-` followed by its suffix in small
/// letters.
pub proof fn lemma_shade_class_is_lowered_suffix(s: Shade)
    ensures
        s.class_of() == "rz-shade-"@ + ascii_lower(s.suffix_of()),
{
    reveal_strlit("rz-shade-");
    match s {
        Shade::Lighter => {
            reveal_strlit("rz-shade-lighter");
            reveal_strlit("lighter");
            assert(s.class_of() =~= "rz-shade-"@ + ascii_lower(s.suffix_of()));
        },
        Shade::Light => {
            reveal_strlit("rz-shade-light");
            reveal_strlit("light");
            assert(s.class_of() =~= "rz-shade-"@ + ascii_lower(s.suffix_of()));
        },
        Shade::Default => {
            reveal_strlit("rz-shade-default");
            reveal_strlit("DEFAULT");
            assert(s.class_of() =~= "rz-shade-"@ + ascii_lower(s.suffix_of()));
        },
        Shade::Dark => {
            reveal_strlit("rz-shade-dark");
            reveal_strlit("dark");
            assert(s.class_of() =~= "rz-shade-"@ + ascii_lower(s.suffix_of()));
        },
        Shade::Darker => {
            reveal_strlit("rz-shade-darker");
            reveal_strlit("darker");
            assert(s.class_of() =~= "rz-shade-"@ + ascii_lower(s.suffix_of()));
        },
    }
}

} // verus!
