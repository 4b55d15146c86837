//! What the numeric input decides apart from its arithmetic: its classes,
//! which keys step the value, and when typed text clears it.

use crate::components::alert::caller_view;
use crate::components::renderer::class_list::{
    class_if, class_string, lemma_add_class_if, lemma_created,
};
use crate::components::{ClassList, TextAlign};
use crate::text::{pick_key, push_str, str_equals, str_is_blank, is_blank, trim, trim_str};
use vstd::prelude::*;

verus! {

/// The numeric input's root class: disabled state, then the caller's class.
pub fn numeric_css_class(disabled: bool, caller: Option<&str>) -> (s: String)
    ensures
        s@ == class_string(
            seq!["rz-numeric"@, class_if(disabled, "rz-state-disabled"@), caller_view(caller)],
        ),
{
    let l0 = ClassList::create("rz-numeric");
    let l1 = l0.add_disabled(disabled);
    let l2 = l1.add_caller_class(caller);
    proof {
        reveal_strlit("rz-numeric");
        reveal_strlit("rz-state-disabled");
        lemma_created("rz-numeric"@);
        lemma_created("rz-state-disabled"@);
        let p0 = seq!["rz-numeric"@];
        lemma_add_class_if(l0@, p0, "rz-state-disabled"@, disabled);
        let p1 = p0.push(class_if(disabled, "rz-state-disabled"@));
        lemma_add_class_if(l1@, p1, caller_view(caller), true);
        assert(p1.push(class_if(true, caller_view(caller))) =~= seq![
            "rz-numeric"@,
            class_if(disabled, "rz-state-disabled"@),
            caller_view(caller),
        ]);
    }
    l2.finish()
}

/// The name of an alignment in the input's class; both justifications are
/// `justify`.
pub open spec fn align_name(a: TextAlign) -> Seq<char> {
    match a {
        TextAlign::Left => "left"@,
        TextAlign::Center => "center"@,
        TextAlign::Right => "right"@,
        TextAlign::Start => "start"@,
        TextAlign::End => "end"@,
        TextAlign::Justify | TextAlign::JustifyAll => "justify"@,
    }
}

/// The class of the numeric input's text field.
pub fn numeric_input_class(align: &TextAlign) -> (s: String)
    ensures
        s@ == "rz-numeric-input rz-inputtext rz-text-align-"@ + align_name(*align),
{
    let name = match align {
        TextAlign::Left => "left",
        TextAlign::Center => "center",
        TextAlign::Right => "right",
        TextAlign::Start => "start",
        TextAlign::End => "end",
        TextAlign::Justify | TextAlign::JustifyAll => "justify",
    };
    let mut s = String::new();
    push_str(&mut s, "rz-numeric-input rz-inputtext rz-text-align-");
    push_str(&mut s, name);
    proof {
        reveal_strlit("rz-numeric-input rz-inputtext rz-text-align-");
        assert(s@ =~= "rz-numeric-input rz-inputtext rz-text-align-"@ + align_name(*align));
    }
    s
}

/// A step of the numeric value.
#[derive(Clone, Copy, Debug, PartialEq, Eq, Structural)]
pub enum StepDirection {
    /// Up by the step.
    Up,
    /// Down by the step.
    Down,
}

/// The step a key makes (its default action is then prevented): ArrowUp
/// steps up, ArrowDown down; nothing on a disabled or read-only input. The
/// key is the event's `code`, or its `key` when the code is empty.
pub fn numeric_key(code: &str, key: &str, disabled: bool, read_only: bool) -> (r: Option<
    StepDirection,
>)
    ensures
        ({
            let k = if code@.len() == 0 {
                key@
            } else {
                code@
            };
            r == if disabled || read_only {
                None
            } else if k == "ArrowUp"@ {
                Some(StepDirection::Up)
            } else if k == "ArrowDown"@ {
                Some(StepDirection::Down)
            } else {
                None
            }
        }),
{
    if disabled || read_only {
        return None;
    }
    let k = pick_key(code, key);
    if str_equals(k, "ArrowUp") {
        Some(StepDirection::Up)
    } else if str_equals(k, "ArrowDown") {
        Some(StepDirection::Down)
    } else {
        None
    }
}

/// Typed text: `None` when it is blank (the value is cleared), else the text
/// without surrounding whitespace, to be read as a number.
pub fn typed_number(text: &str) -> (r: Option<String>)
    ensures
        is_blank(text@) ==> r is None,
        !is_blank(text@) ==> (r matches Some(t) && t@ == trim(text@)),
{
    if str_is_blank(text) {
        None
    } else {
        Some(trim_str(text))
    }
}

} // verus!
