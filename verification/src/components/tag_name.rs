//! HTML element rendered by a text component.

use vstd::prelude::*;

verus! {
/// HTML element tag rendered by a text component. `Auto` derives the tag from
/// the text style.
#[derive(Debug, Clone, PartialEq, Eq, Structural)]
pub enum TagName {
    /// Render as `<div>`.
    Div,
    /// Render as `<span>`.
    Span,
    /// Render as `<p>`.
    P,
    /// Render as `<h1>`.
    H1,
    /// Render as `<h2>`.
    H2,
    /// Render as `<h3>`.
    H3,
    /// Render as `<h4>`.
    H4,
    /// Render as `<h5>`.
    H5,
    /// Render as `<h6>`.
    H6,
    /// Render as `<a>`.
    A,
    /// Render as `<button>`.
    Button,
    /// Render as `<pre>`.
    Pre,
    /// Tag is chosen automatically from the text style. Default.
    Auto,
}

impl Default for TagName {
    fn default() -> (r: Self)
        ensures
            r == TagName::Auto,
    {
        TagName::Auto
    }
}

impl TagName {
    /// The explicit tag, if any.
    pub open spec fn tag_of(self) -> Option<Seq<char>> {
        match self {
            TagName::Div => Some("div"@),
            TagName::Span => Some("span"@),
            TagName::P => Some("p"@),
            TagName::H1 => Some("h1"@),
            TagName::H2 => Some("h2"@),
            TagName::H3 => Some("h3"@),
            TagName::H4 => Some("h4"@),
            TagName::H5 => Some("h5"@),
            TagName::H6 => Some("h6"@),
            TagName::A => Some("a"@),
            TagName::Button => Some("button"@),
            TagName::Pre => Some("pre"@),
            TagName::Auto => None,
        }
    }

    /// Returns the literal HTML tag when an explicit tag is set, or `None` for `Auto`.
    pub fn as_str(&self) -> (s: Option<&'static str>)
        ensures
            match s {
                Some(t) => self.tag_of() == Some(t@),
                None => self.tag_of() is None,
            },
    {
        match self {
            TagName::Div => Some("div"),
            TagName::Span => Some("span"),
            TagName::P => Some("p"),
            TagName::H1 => Some("h1"),
            TagName::H2 => Some("h2"),
            TagName::H3 => Some("h3"),
            TagName::H4 => Some("h4"),
            TagName::H5 => Some("h5"),
            TagName::H6 => Some("h6"),
            TagName::A => Some("a"),
            TagName::Button => Some("button"),
            TagName::Pre => Some("pre"),
            TagName::Auto => None,
        }
    }

}

} // verus!
