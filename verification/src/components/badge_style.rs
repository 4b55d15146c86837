//! Semantic color style of a badge.

use vstd::prelude::*;

verus! {
/// Badge style enumeration — semantic color styles.
#[derive(Debug, Clone, Copy, PartialEq, Eq, Structural)]
pub enum BadgeStyle {
    /// Primary styling.
    Primary,
    /// Secondary styling.
    Secondary,
    /// Success styling.
    Success,
    /// Danger styling.
    Danger,
    /// Warning styling.
    Warning,
    /// Info styling.
    Info,
    /// Light styling.
    Light,
    /// Dark styling.
    Dark,
    /// Base styling.
    Base,
}

impl BadgeStyle {
    /// The lowercase name of the style.
    pub open spec fn token_of(self) -> Seq<char> {
        match self {
            BadgeStyle::Primary => "primary"@,
            BadgeStyle::Secondary => "secondary"@,
            BadgeStyle::Success => "success"@,
            BadgeStyle::Danger => "danger"@,
            BadgeStyle::Warning => "warning"@,
            BadgeStyle::Info => "info"@,
            BadgeStyle::Light => "light"@,
            BadgeStyle::Dark => "dark"@,
            BadgeStyle::Base => "base"@,
        }
    }

    /// Returns the lowercase token of the style.
    pub fn as_str(&self) -> (s: &'static str)
        ensures
            s@ == self.token_of(),
    {
        match self {
            BadgeStyle::Primary => "primary",
            BadgeStyle::Secondary => "secondary",
            BadgeStyle::Success => "success",
            BadgeStyle::Danger => "danger",
            BadgeStyle::Warning => "warning",
            BadgeStyle::Info => "info",
            BadgeStyle::Light => "light",
            BadgeStyle::Dark => "dark",
            BadgeStyle::Base => "base",
        }
    }

}

} // verus!
