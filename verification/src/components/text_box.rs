//! What the text box does: the ARIA autocomplete value, its class, the
//! attributes spread onto it, and the value it commits. The password and
//! text area inputs use the same class and attribute rules.

use crate::components::renderer::class_list::{
    class_if, class_string, lemma_add_class_if,
};
use crate::components::{AutoCompleteType, ClassList};
use crate::text::{decimal, decimal_string, push_str, str_equals, trim, trim_str};
use vstd::prelude::*;

verus! {

/// `aria-autocomplete`: `"none"` when autocomplete is off, else `"both"`.
pub fn aria_autocomplete_value(ac: &AutoCompleteType) -> (s: &'static str)
    ensures
        s@ == if *ac == AutoCompleteType::Off {
            "none"@
        } else {
            "both"@
        },
{
    match ac {
        AutoCompleteType::Off => "none",
        _ => "both",
    }
}

/// The class of a text input: its root and disabled state, `rz-state-empty`
/// while its value is empty, then the caller's class.
pub open spec fn input_class(root: Seq<char>, disabled: bool, empty: bool, caller: Seq<char>) -> Seq<
    char,
> {
    class_string(seq![root, class_if(disabled, "rz-state-disabled"@)]) + (if empty {
        " rz-state-empty"@
    } else {
        Seq::empty()
    }) + (if caller.len() == 0 {
        Seq::empty()
    } else {
        " "@ + caller
    })
}

/// The class of a text input with root class `root`.
pub fn input_css_class(root: &str, disabled: bool, empty: bool, caller: &str) -> (s: String)
    ensures
        s@ == input_class(root@, disabled, empty, caller@),
{
    let l0 = ClassList::create(root);
    let l1 = l0.add_disabled(disabled);
    proof {
        reveal_strlit("rz-state-disabled");
        crate::components::dropdown_base::lemma_create_kept(root@);
        crate::components::renderer::class_list::lemma_created("rz-state-disabled"@);
        lemma_add_class_if(l0@, seq![root@], "rz-state-disabled"@, disabled);
        assert(seq![root@].push(class_if(disabled, "rz-state-disabled"@)) =~= seq![
            root@,
            class_if(disabled, "rz-state-disabled"@),
        ]);
    }
    let mut s = l1.finish();
    if empty {
        push_str(&mut s, " rz-state-empty");
    }
    if !caller.is_empty() {
        push_str(&mut s, " ");
        push_str(&mut s, caller);
    }
    proof {
        reveal_strlit(" rz-state-empty");
        reveal_strlit(" ");
        assert(s@ =~= input_class(root@, disabled, empty, caller@));
    }
    s
}

/// The text box's class.
pub fn text_box_css_class(disabled: bool, empty: bool, caller: &str) -> (s: String)
    ensures
        s@ == input_class("rz-textbox"@, disabled, empty, caller@),
{
    input_css_class("rz-textbox", disabled, empty, caller)
}

/// Whether a caller attribute is spread onto the input: all but `class`,
/// which goes into the class.
pub fn is_spread_attribute(key: &str) -> (r: bool)
    ensures
        r == (key@ != "class"@),
{
    !str_equals(key, "class")
}

/// The `id` of the input: its name, else the component's id.
pub fn input_id(name: Option<&str>, id: &str) -> (s: String)
    ensures
        s@ == match name {
            Some(n) => n@,
            None => id@,
        },
{
    match name {
        Some(n) => n.to_owned(),
        None => id.to_owned(),
    }
}

/// The `maxlength` attribute, when there is a maximum length.
pub fn max_length_attr(max_length: Option<u64>) -> (r: Option<String>)
    ensures
        match max_length {
            Some(n) => (r matches Some(s) && s@ == decimal(n as nat)),
            None => r is None,
        },
{
    match max_length {
        Some(n) => Some(decimal_string(n)),
        None => None,
    }
}

/// The value the text box commits: the typed text, without surrounding
/// whitespace when trimming is on.
pub fn committed_text(raw: &str, trim_value: bool) -> (s: String)
    ensures
        s@ == if trim_value {
            trim(raw@)
        } else {
            raw@
        },
{
    if trim_value {
        trim_str(raw)
    } else {
        raw.to_owned()
    }
}

} // verus!
