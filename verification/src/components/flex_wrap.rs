//! Flex-wrap behaviour inside a stack.

use vstd::prelude::*;

verus! {
/// Flex-wrap behaviour for children inside a stack (CSS `flex-wrap`).
#[derive(Debug, Clone, PartialEq, Eq, Structural)]
pub enum FlexWrap {
    /// All children stay on a single line. Default.
    NoWrap,
    /// Children wrap onto multiple lines.
    Wrap,
    /// Children wrap onto multiple lines in reverse order.
    WrapReverse,
}

impl Default for FlexWrap {
    fn default() -> (r: Self)
        ensures
            r == FlexWrap::NoWrap,
    {
        FlexWrap::NoWrap
    }
}

impl FlexWrap {
    /// The CSS value of the wrap mode, if one is emitted.
    pub open spec fn value_of(self) -> Option<Seq<char>> {
        match self {
            FlexWrap::NoWrap => None,
            FlexWrap::Wrap => Some("wrap"@),
            FlexWrap::WrapReverse => Some("wrap-reverse"@),
        }
    }

    /// Returns the CSS `flex-wrap` value, or `None` for `NoWrap` (not emitted).
    pub fn css_value(&self) -> (s: Option<&'static str>)
        ensures
            match s {
                Some(t) => self.value_of() == Some(t@),
                None => self.value_of() is None,
            },
    {
        match self {
            FlexWrap::NoWrap => None,
            FlexWrap::Wrap => Some("wrap"),
            FlexWrap::WrapReverse => Some("wrap-reverse"),
        }
    }

}

} // verus!
