//! Where a pager is rendered.

use vstd::prelude::*;

verus! {
/// Where the pager bar is rendered relative to the data.
#[derive(Debug, Clone, Copy, PartialEq, Eq, Structural)]
pub enum PagerPosition {
    /// Render the pager below the data. Default.
    Bottom,
    /// Render the pager above the data.
    Top,
    /// Render the pager both above and below the data.
    TopAndBottom,
}

impl Default for PagerPosition {
    fn default() -> (r: Self)
        ensures
            r == PagerPosition::Bottom,
    {
        PagerPosition::Bottom
    }
}

} // verus!
