//! Horizontal alignment of content.

use vstd::prelude::*;

verus! {
/// Horizontal alignment of content inside a component.
#[derive(Debug, Clone, Copy, PartialEq, Eq, Structural)]
pub enum HorizontalAlign {
    /// Spread content to fill the full width. Default.
    Justify,
    /// Align content to the left.
    Left,
    /// Center content horizontally.
    Center,
    /// Align content to the right.
    Right,
}

impl Default for HorizontalAlign {
    fn default() -> (r: Self)
        ensures
            r == HorizontalAlign::Justify,
    {
        HorizontalAlign::Justify
    }
}

impl HorizontalAlign {
    /// The `justify-content` value of the alignment.
    pub open spec fn justify_of(self) -> Seq<char> {
        match self {
            HorizontalAlign::Justify => "space-between"@,
            HorizontalAlign::Left => "flex-start"@,
            HorizontalAlign::Center => "center"@,
            HorizontalAlign::Right => "flex-end"@,
        }
    }

    /// CSS `justify-content` value for a flex row.
    pub fn css_justify(&self) -> (s: &'static str)
        ensures
            s@ == self.justify_of(),
    {
        match self {
            HorizontalAlign::Justify => "space-between",
            HorizontalAlign::Left => "flex-start",
            HorizontalAlign::Center => "center",
            HorizontalAlign::Right => "flex-end",
        }
    }

}

} // verus!
