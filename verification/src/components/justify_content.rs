//! Main-axis distribution inside a stack.

use vstd::prelude::*;

verus! {
/// Main-axis distribution of children inside a stack (CSS `justify-content`).
#[derive(Debug, Clone, PartialEq, Eq, Structural)]
pub enum JustifyContent {
    /// Browser default — not emitted. Default.
    Normal,
    /// Center children on the main axis.
    Center,
    /// Align children to the start of the main axis.
    Start,
    /// Align children to the end of the main axis.
    End,
    /// Align children to the left.
    Left,
    /// Align children to the right.
    Right,
    /// Equal space between children.
    SpaceBetween,
    /// Equal space around children.
    SpaceAround,
    /// Equal space between and around children.
    SpaceEvenly,
    /// Stretch children to fill the main axis.
    Stretch,
}

impl Default for JustifyContent {
    fn default() -> (r: Self)
        ensures
            r == JustifyContent::Normal,
    {
        JustifyContent::Normal
    }
}

impl JustifyContent {
    /// The CSS value of the distribution, if one is emitted.
    pub open spec fn value_of(self) -> Option<Seq<char>> {
        match self {
            JustifyContent::Normal => None,
            JustifyContent::Center => Some("center"@),
            JustifyContent::Start => Some("flex-start"@),
            JustifyContent::End => Some("flex-end"@),
            JustifyContent::Left => Some("left"@),
            JustifyContent::Right => Some("right"@),
            JustifyContent::SpaceBetween => Some("space-between"@),
            JustifyContent::SpaceAround => Some("space-around"@),
            JustifyContent::SpaceEvenly => Some("space-evenly"@),
            JustifyContent::Stretch => Some("stretch"@),
        }
    }

    /// Returns the CSS `justify-content` value, or `None` for `Normal` (not emitted).
    pub fn css_value(&self) -> (s: Option<&'static str>)
        ensures
            match s {
                Some(t) => self.value_of() == Some(t@),
                None => self.value_of() is None,
            },
    {
        match self {
            JustifyContent::Normal => None,
            JustifyContent::Center => Some("center"),
            JustifyContent::Start => Some("flex-start"),
            JustifyContent::End => Some("flex-end"),
            JustifyContent::Left => Some("left"),
            JustifyContent::Right => Some("right"),
            JustifyContent::SpaceBetween => Some("space-between"),
            JustifyContent::SpaceAround => Some("space-around"),
            JustifyContent::SpaceEvenly => Some("space-evenly"),
            JustifyContent::Stretch => Some("stretch"),
        }
    }

}

} // verus!
