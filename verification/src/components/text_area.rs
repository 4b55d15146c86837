//! The text area's class.

use crate::components::text_box::{input_class, input_css_class};
use vstd::prelude::*;

verus! {

/// The text area's class: `rz-textarea`, its disabled and empty states, then
/// the caller's class.
pub fn text_area_css_class(disabled: bool, empty: bool, caller: &str) -> (s: String)
    ensures
        s@ == input_class("rz-textarea"@, disabled, empty, caller@),
{
    input_css_class("rz-textarea", disabled, empty, caller)
}

} // verus!
