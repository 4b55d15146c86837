//! What the image does: its alternate text, whether it acts as a button,
//! and the keys that click it.

use crate::text::{pick_key, push_str, str_equals};
use vstd::prelude::*;

verus! {

/// The alternate text: the component's, followed by the caller's `alt`
/// attribute when it is not empty.
pub open spec fn alt_text_of(alternate: Seq<char>, extra: Seq<char>) -> Seq<char> {
    if extra.len() == 0 {
        alternate
    } else {
        alternate + " "@ + extra
    }
}

/// The alternate text of the image.
pub fn image_alt_text(alternate_text: &str, extra: Option<&str>) -> (s: String)
    ensures
        s@ == alt_text_of(
            alternate_text@,
            match extra {
                Some(e) => e@,
                None => Seq::empty(),
            },
        ),
{
    let e: &str = match extra {
        Some(e) => e,
        None => "",
    };
    proof {
        reveal_strlit("");
    }
    if e.is_empty() {
        alternate_text.to_owned()
    } else {
        let mut s = String::new();
        push_str(&mut s, alternate_text);
        push_str(&mut s, " ");
        push_str(&mut s, e);
        proof {
            reveal_strlit(" ");
            assert(s@ =~= alternate_text@ + " "@ + e@);
        }
        s
    }
}

/// The role and `tabindex` of the image: a button reachable by Tab when it
/// has a click handler, none otherwise.
pub fn image_role(has_click: bool) -> (r: (Option<&'static str>, Option<&'static str>))
    ensures
        has_click ==> (r.0 matches Some(role) && role@ == "button"@) && (r.1 matches Some(t)
            && t@ == "0"@),
        !has_click ==> r.0 is None && r.1 is None,
{
    if has_click {
        (Some("button"), Some("0"))
    } else {
        (None, None)
    }
}

/// Whether a key clicks the image: Enter or Space, when it has a click
/// handler. The key is the event's `code`, or its `key` when the code is
/// empty.
pub fn image_key_clicks(code: &str, key: &str, has_click: bool) -> (r: bool)
    ensures
        r == (has_click && ({
            let k = if code@.len() == 0 {
                key@
            } else {
                code@
            };
            k == "Enter"@ || k == "Space"@
        })),
{
    if !has_click {
        return false;
    }
    let k = pick_key(code, key);
    str_equals(k, "Enter") || str_equals(k, "Space")
}

} // verus!
