//! Direction of a stack.

use vstd::prelude::*;

verus! {
/// Stack direction: `Vertical` lays children out as a column, `Horizontal` as a row.
#[derive(Debug, Clone, PartialEq, Eq, Structural)]
pub enum Orientation {
    /// Children are stacked top-to-bottom. Default.
    Vertical,
    /// Children are arranged left-to-right.
    Horizontal,
}

impl Default for Orientation {
    fn default() -> (r: Self)
        ensures
            r == Orientation::Vertical,
    {
        Orientation::Vertical
    }
}

} // verus!
