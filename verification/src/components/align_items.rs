//! Cross-axis alignment inside a stack.

use vstd::prelude::*;

verus! {
/// Cross-axis alignment of children inside a stack (CSS `align-items`).
#[derive(Debug, Clone, PartialEq, Eq, Structural)]
pub enum AlignItems {
    /// Browser default — not emitted. Default.
    Normal,
    /// Center children on the cross axis.
    Center,
    /// Align children to the start of the cross axis.
    Start,
    /// Align children to the end of the cross axis.
    End,
    /// Stretch children to fill the cross axis.
    Stretch,
}

impl Default for AlignItems {
    fn default() -> (r: Self)
        ensures
            r == AlignItems::Normal,
    {
        AlignItems::Normal
    }
}

impl AlignItems {
    /// The CSS value of the alignment, if one is emitted.
    pub open spec fn value_of(self) -> Option<Seq<char>> {
        match self {
            AlignItems::Normal => None,
            AlignItems::Center => Some("center"@),
            AlignItems::Start => Some("flex-start"@),
            AlignItems::End => Some("flex-end"@),
            AlignItems::Stretch => Some("stretch"@),
        }
    }

    /// Returns the CSS `align-items` value, or `None` for `Normal` (not emitted).
    pub fn css_value(&self) -> (s: Option<&'static str>)
        ensures
            match s {
                Some(t) => self.value_of() == Some(t@),
                None => self.value_of() is None,
            },
    {
        match self {
            AlignItems::Normal => None,
            AlignItems::Center => Some("center"),
            AlignItems::Start => Some("flex-start"),
            AlignItems::End => Some("flex-end"),
            AlignItems::Stretch => Some("stretch"),
        }
    }

}

} // verus!
