//! Semantic style of an alert.

use vstd::prelude::*;

verus! {
/// Semantic style/severity of an alert: its color scheme and default icon.
/// Maps to the `rz-{style}` CSS class.
#[derive(Debug, Clone, Copy, PartialEq, Eq, Structural)]
pub enum AlertStyle {
    /// Primary styling — main action color.
    Primary,
    /// Secondary styling — supporting action color.
    Secondary,
    /// Success — positive outcome. Default icon: `check_circle`.
    Success,
    /// Danger — destructive or error state. Default icon: `error`.
    Danger,
    /// Warning — cautionary state. Default icon: `warning_amber`.
    Warning,
    /// Info — informational state. Default icon: `info`.
    Info,
    /// Light — subtle light styling.
    Light,
    /// Dark — dark styling.
    Dark,
    /// Base UI neutral styling. Default. Default icon: `lightbulb`.
    Base,
}

impl Default for AlertStyle {
    fn default() -> (r: Self)
        ensures
            r == AlertStyle::Base,
    {
        AlertStyle::Base
    }
}

impl AlertStyle {
    /// The lowercase name of the style.
    pub open spec fn token_of(self) -> Seq<char> {
        match self {
            AlertStyle::Primary => "primary"@,
            AlertStyle::Secondary => "secondary"@,
            AlertStyle::Success => "success"@,
            AlertStyle::Danger => "danger"@,
            AlertStyle::Warning => "warning"@,
            AlertStyle::Info => "info"@,
            AlertStyle::Light => "light"@,
            AlertStyle::Dark => "dark"@,
            AlertStyle::Base => "base"@,
        }
    }

    /// Returns the lowercase token used to build the `rz-{token}` CSS class.
    pub fn as_str(&self) -> (s: &'static str)
        ensures
            s@ == self.token_of(),
    {
        match self {
            AlertStyle::Primary => "primary",
            AlertStyle::Secondary => "secondary",
            AlertStyle::Success => "success",
            AlertStyle::Danger => "danger",
            AlertStyle::Warning => "warning",
            AlertStyle::Info => "info",
            AlertStyle::Light => "light",
            AlertStyle::Dark => "dark",
            AlertStyle::Base => "base",
        }
    }

    /// The default icon of the style.
    pub open spec fn icon_of(self) -> Seq<char> {
        match self {
            AlertStyle::Success => "check_circle"@,
            AlertStyle::Danger => "error"@,
            AlertStyle::Warning => "warning_amber"@,
            AlertStyle::Info => "info"@,
            _ => "lightbulb"@,
        }
    }

    /// Returns the default Material icon name for this alert style.
    pub fn default_icon(&self) -> (s: &'static str)
        ensures
            s@ == self.icon_of(),
    {
        match self {
            AlertStyle::Success => "check_circle",
            AlertStyle::Danger => "error",
            AlertStyle::Warning => "warning_amber",
            AlertStyle::Info => "info",
            _ => "lightbulb",
        }
    }

}

} // verus!
