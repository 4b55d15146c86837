//! Size of a button.

use vstd::prelude::*;

verus! {
/// Specifies the size of a button; maps to the `rz-button-{xs|sm|md|lg}` class.
#[derive(Debug, Clone, Copy, PartialEq, Eq, Structural)]
pub enum ButtonSize {
    /// The smallest button size.
    ExtraSmall,
    /// Smaller than the default.
    Small,
    /// The default size.
    Medium,
    /// Larger than the default.
    Large,
}

impl Default for ButtonSize {
    fn default() -> (r: Self)
        ensures
            r == ButtonSize::Medium,
    {
        ButtonSize::Medium
    }
}

} // verus!
