//! Horizontal text alignment.

use vstd::prelude::*;

verus! {
/// Horizontal text alignment of a text component. `Left` emits no class.
#[derive(Debug, Clone, PartialEq, Eq, Structural)]
pub enum TextAlign {
    /// Center-aligned text.
    Center,
    /// Logical inline-end alignment.
    End,
    /// Justified text.
    Justify,
    /// Logical inline-start alignment.
    Start,
    /// Left-aligned text. Default — no alignment class is emitted.
    Left,
    /// Right-aligned text.
    Right,
    /// Justify all lines including the last.
    JustifyAll,
}

impl Default for TextAlign {
    fn default() -> (r: Self)
        ensures
            r == TextAlign::Left,
    {
        TextAlign::Left
    }
}

impl TextAlign {
    /// The alignment class, if one is emitted.
    pub open spec fn class_of(self) -> Option<Seq<char>> {
        match self {
            TextAlign::Center => Some("rz-text-align-center"@),
            TextAlign::End => Some("rz-text-align-end"@),
            TextAlign::Justify => Some("rz-text-align-justify"@),
            TextAlign::Start => Some("rz-text-align-start"@),
            TextAlign::Left => None,
            TextAlign::Right => Some("rz-text-align-right"@),
            TextAlign::JustifyAll => Some("rz-text-align-justify-all"@),
        }
    }

    /// Returns the alignment CSS class for this value, or `None` for `Left`.
    pub fn css_class(&self) -> (s: Option<&'static str>)
        ensures
            match s {
                Some(t) => self.class_of() == Some(t@),
                None => self.class_of() is None,
            },
    {
        match self {
            TextAlign::Center => Some("rz-text-align-center"),
            TextAlign::End => Some("rz-text-align-end"),
            TextAlign::Justify => Some("rz-text-align-justify"),
            TextAlign::Start => Some("rz-text-align-start"),
            TextAlign::Left => None,
            TextAlign::Right => Some("rz-text-align-right"),
            TextAlign::JustifyAll => Some("rz-text-align-justify-all"),
        }
    }

}

} // verus!
