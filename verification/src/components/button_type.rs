//! HTML `type` of a button.

use vstd::prelude::*;

verus! {
/// HTML `type` attribute of a button element.
#[derive(Debug, Clone, Copy, PartialEq, Eq, Structural)]
pub enum ButtonType {
    /// Generic button — does not submit its parent form. Default.
    Button,
    /// Submits the parent form when clicked.
    Submit,
    /// Resets all inputs in the parent form when clicked.
    Reset,
}

impl Default for ButtonType {
    fn default() -> (r: Self)
        ensures
            r == ButtonType::Button,
    {
        ButtonType::Button
    }
}

impl ButtonType {
    /// The `type` attribute value.
    pub open spec fn attr_of(self) -> Seq<char> {
        match self {
            ButtonType::Button => "button"@,
            ButtonType::Submit => "submit"@,
            ButtonType::Reset => "reset"@,
        }
    }

    /// Returns the lowercase string used as the HTML `type` attribute value.
    pub fn as_str(&self) -> (s: &'static str)
        ensures
            s@ == self.attr_of(),
    {
        match self {
            ButtonType::Button => "button",
            ButtonType::Submit => "submit",
            ButtonType::Reset => "reset",
        }
    }

}

} // verus!
