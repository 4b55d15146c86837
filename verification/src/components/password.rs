//! The password input's class.

use crate::components::text_box::{input_class, input_css_class};
use vstd::prelude::*;

verus! {

/// The password input's class (the text box's classes).
pub fn password_css_class(disabled: bool, empty: bool, caller: &str) -> (s: String)
    ensures
        s@ == input_class("rz-textbox"@, disabled, empty, caller@),
{
    input_css_class("rz-textbox", disabled, empty, caller)
}

} // verus!
