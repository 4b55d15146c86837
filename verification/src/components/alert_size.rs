//! Size of an alert.

use vstd::prelude::*;

verus! {

/// Specifies the size of an alert; maps to the `rz-alert-{xs|sm|md|lg}` class.
#[derive(Debug, Clone, Copy, PartialEq, Eq, Structural)]
pub enum AlertSize {
    /// The smallest alert size.
    ExtraSmall,
    /// Smaller than the default.
    Small,
    /// The default size.
    Medium,
    /// Larger than the default.
    Large,
}

impl Default for AlertSize {
    fn default() -> (r: Self)
        ensures
            r == AlertSize::Medium,
    {
        AlertSize::Medium
    }
}

impl AlertSize {
    /// The suffix used in `rz-alert-{suffix}`.
    pub open spec fn suffix_of(self) -> Seq<char> {
        match self {
            AlertSize::Medium => "md"@,
            AlertSize::Large => "lg"@,
            AlertSize::Small => "sm"@,
            AlertSize::ExtraSmall => "xs"@,
        }
    }

    /// Returns the CSS suffix used in `rz-alert-{suffix}`.
    pub fn css_suffix(&self) -> (s: &'static str)
        ensures
            s@ == self.suffix_of(),
    {
        match self {
            AlertSize::Medium => "md",
            AlertSize::Large => "lg",
            AlertSize::Small => "sm",
            AlertSize::ExtraSmall => "xs",
        }
    }
}

} // verus!
