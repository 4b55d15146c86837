//! Semantic color style of a button.

use vstd::prelude::*;

verus! {
/// Semantic color style of a button.
#[derive(Debug, Clone, Copy, PartialEq, Eq, Structural)]
pub enum ButtonStyle {
    /// Primary styling. Default.
    Primary,
    /// Secondary styling.
    Secondary,
    /// Light styling.
    Light,
    /// Base styling.
    Base,
    /// Dark styling.
    Dark,
    /// Success styling.
    Success,
    /// Danger styling.
    Danger,
    /// Warning styling.
    Warning,
    /// Info styling.
    Info,
}

impl Default for ButtonStyle {
    fn default() -> (r: Self)
        ensures
            r == ButtonStyle::Primary,
    {
        ButtonStyle::Primary
    }
}

impl ButtonStyle {
    /// The lowercase color token of the style.
    pub open spec fn token_of(self) -> Seq<char> {
        match self {
            ButtonStyle::Primary => "primary"@,
            ButtonStyle::Secondary => "secondary"@,
            ButtonStyle::Light => "light"@,
            ButtonStyle::Base => "base"@,
            ButtonStyle::Dark => "dark"@,
            ButtonStyle::Success => "success"@,
            ButtonStyle::Danger => "danger"@,
            ButtonStyle::Warning => "warning"@,
            ButtonStyle::Info => "info"@,
        }
    }

    /// Returns the color token of the style.
    pub fn token(&self) -> (s: &'static str)
        ensures
            s@ == self.token_of(),
    {
        match self {
            ButtonStyle::Primary => "primary",
            ButtonStyle::Secondary => "secondary",
            ButtonStyle::Light => "light",
            ButtonStyle::Base => "base",
            ButtonStyle::Dark => "dark",
            ButtonStyle::Success => "success",
            ButtonStyle::Danger => "danger",
            ButtonStyle::Warning => "warning",
            ButtonStyle::Info => "info",
        }
    }

}

} // verus!
