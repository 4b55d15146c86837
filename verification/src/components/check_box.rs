//! What the checkbox does: the value after a toggle (two-state or
//! tri-state), when it toggles, and its classes and ARIA state.

use crate::components::alert::caller_view;
use crate::components::renderer::class_list::{
    class_if, class_string, lemma_add_class_if, lemma_created,
};
use crate::components::ClassList;
use crate::text::str_equals;
use vstd::prelude::*;

verus! {

/// The value after a toggle: false becomes true (or indeterminate in
/// tri-state mode), indeterminate becomes true, true becomes false.
pub open spec fn next_check(v: Option<bool>, tri_state: bool) -> Option<bool> {
    match v {
        Some(false) => if tri_state {
            None
        } else {
            Some(true)
        },
        None => Some(true),
        Some(true) => Some(false),
    }
}

/// The value after a toggle, or `None` when a disabled or read-only checkbox
/// ignores it.
pub fn check_box_toggle(v: Option<bool>, tri_state: bool, disabled: bool, read_only: bool) -> (r:
    Option<Option<bool>>)
    ensures
        r == if disabled || read_only {
            None
        } else {
            Some(next_check(v, tri_state))
        },
{
    if disabled || read_only {
        return None;
    }
    let next = match v {
        Some(false) => {
            if tri_state {
                None
            } else {
                Some(true)
            }
        },
        None => Some(true),
        Some(true) => Some(false),
    };
    Some(next)
}

/// Whether a key toggles the checkbox (and its default action is prevented):
/// the Space key.
pub fn check_box_key(code: &str) -> (r: bool)
    ensures
        r == (code@ == "Space"@),
{
    str_equals(code, "Space")
}

/// `aria-checked`: `"true"`, `"false"` or `"mixed"`.
pub fn aria_checked(v: Option<bool>) -> (s: &'static str)
    ensures
        s@ == match v {
            Some(true) => "true"@,
            Some(false) => "false"@,
            None => "mixed"@,
        },
{
    match v {
        Some(true) => "true",
        Some(false) => "false",
        None => "mixed",
    }
}

/// The value of the hidden input: `"true"` when checked, else `"false"`.
pub fn input_value(v: Option<bool>) -> (s: &'static str)
    ensures
        s@ == if v == Some(true) {
            "true"@
        } else {
            "false"@
        },
{
    match v {
        Some(true) => "true",
        _ => "false",
    }
}

/// The checkbox's root class: disabled state, then the caller's class.
pub fn check_box_css_class(disabled: bool, caller: Option<&str>) -> (s: String)
    ensures
        s@ == class_string(
            seq!["rz-chkbox"@, class_if(disabled, "rz-state-disabled"@), caller_view(caller)],
        ),
{
    let l0 = ClassList::create("rz-chkbox");
    let l1 = l0.add_disabled(disabled);
    let l2 = l1.add_caller_class(caller);
    proof {
        reveal_strlit("rz-chkbox");
        reveal_strlit("rz-state-disabled");
        lemma_created("rz-chkbox"@);
        lemma_created("rz-state-disabled"@);
        let p0 = seq!["rz-chkbox"@];
        lemma_add_class_if(l0@, p0, "rz-state-disabled"@, disabled);
        let p1 = p0.push(class_if(disabled, "rz-state-disabled"@));
        lemma_add_class_if(l1@, p1, caller_view(caller), true);
        assert(p1.push(class_if(true, caller_view(caller))) =~= seq![
            "rz-chkbox"@,
            class_if(disabled, "rz-state-disabled"@),
            caller_view(caller),
        ]);
    }
    l2.finish()
}

/// The class of the checkbox's box: active unless unchecked.
pub fn box_css_class(v: Option<bool>, disabled: bool) -> (s: String)
    ensures
        s@ == class_string(
            seq![
                "notranslate rz-chkbox-box"@,
                class_if(v != Some(false), "rz-state-active"@),
                class_if(disabled, "rz-state-disabled"@),
            ],
        ),
{
    let active = match v {
        Some(false) => false,
        _ => true,
    };
    let l0 = ClassList::create("notranslate rz-chkbox-box");
    let l1 = l0.add("rz-state-active", active);
    let l2 = l1.add_disabled(disabled);
    proof {
        reveal_strlit("notranslate rz-chkbox-box");
        reveal_strlit("rz-state-active");
        reveal_strlit("rz-state-disabled");
        lemma_created("notranslate rz-chkbox-box"@);
        lemma_created("rz-state-disabled"@);
        let p0 = seq!["notranslate rz-chkbox-box"@];
        lemma_add_class_if(l0@, p0, "rz-state-active"@, active);
        let p1 = p0.push(class_if(active, "rz-state-active"@));
        lemma_add_class_if(l1@, p1, "rz-state-disabled"@, disabled);
        assert(p1.push(class_if(disabled, "rz-state-disabled"@)) =~= seq![
            "notranslate rz-chkbox-box"@,
            class_if(v != Some(false), "rz-state-active"@),
            class_if(disabled, "rz-state-disabled"@),
        ]);
    }
    l2.finish()
}

/// The class of the checkbox's icon: a check when checked, a cross when
/// indeterminate.
pub fn icon_css_class(v: Option<bool>) -> (s: &'static str)
    ensures
        s@ == match v {
            Some(true) => "notranslate rz-chkbox-icon rzi rzi-check"@,
            None => "notranslate rz-chkbox-icon rzi rzi-times"@,
            Some(false) => "notranslate rz-chkbox-icon"@,
        },
{
    match v {
        Some(true) => "notranslate rz-chkbox-icon rzi rzi-check",
        None => "notranslate rz-chkbox-icon rzi rzi-times",
        Some(false) => "notranslate rz-chkbox-icon",
    }
}

/// A two-state checkbox alternates: two toggles give a checked or unchecked
/// value back.
pub proof fn lemma_two_state_toggle_twice(b: bool)
    ensures
        next_check(next_check(Some(b), false), false) == Some(b),
{
}

/// A tri-state checkbox cycles through unchecked, indeterminate and checked:
/// three toggles give every value back.
pub proof fn lemma_tri_state_cycle(v: Option<bool>)
    ensures
        next_check(next_check(next_check(v, true), true), true) == v,
{
}

/// A two-state checkbox never becomes indeterminate.
pub proof fn lemma_two_state_never_mixed(v: Option<bool>)
    ensures
        next_check(v, false) is Some,
{
}

} // verus!
