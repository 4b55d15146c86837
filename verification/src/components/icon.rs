//! The icon's class and style.

use crate::components::alert::caller_view;
use crate::components::renderer::class_list::{
    class_if, class_string, icon_style_class, lemma_add_class_if, lemma_created, lemma_push_same,
};
use crate::components::{ClassList, IconStyle};
use crate::text::push_str;
use vstd::prelude::*;

verus! {

/// The icon's class: `notranslate rzi`, the style's class when it has one,
/// then the caller's class.
pub open spec fn icon_class(style: Option<IconStyle>, caller: Seq<char>) -> Seq<char> {
    class_string(
        seq!["notranslate rzi"@] + match style {
            Some(s) => seq![icon_style_class(s)],
            None => Seq::empty(),
        } + seq![caller],
    )
}

/// The icon's class.
pub fn icon_css_class(style: Option<IconStyle>, caller: Option<&str>) -> (s: String)
    ensures
        s@ == icon_class(style, caller_view(caller)),
{
    let l0 = ClassList::create("notranslate rzi");
    let l1 = match style {
        Some(st) => l0.add_icon_style(st),
        None => l0,
    };
    let ghost p1: Seq<Seq<char>> = seq!["notranslate rzi"@] + match style {
        Some(s) => seq![icon_style_class(s)],
        None => Seq::empty(),
    };
    proof {
        reveal_strlit("notranslate rzi");
        lemma_created("notranslate rzi"@);
        let p0 = seq!["notranslate rzi"@];
        match style {
            Some(st) => {
                lemma_push_same(l0@, p0, icon_style_class(st));
                assert(p0.push(icon_style_class(st)) =~= p1);
            },
            None => {
                assert(p0 =~= p1);
            },
        }
    }
    let l2 = l1.add_caller_class(caller);
    proof {
        lemma_add_class_if(l1@, p1, caller_view(caller), true);
        assert(p1.push(class_if(true, caller_view(caller))) =~= p1 + seq![caller_view(caller)]);
    }
    l2.finish()
}

/// The icon's style: `color:{color};` before the caller's style.
pub fn icon_style(color: Option<&str>, caller_style: &str) -> (s: String)
    ensures
        s@ == match color {
            Some(c) => "color:"@ + c@ + ";"@,
            None => Seq::empty(),
        } + caller_style@,
{
    let mut s = String::new();
    match color {
        Some(c) => {
            push_str(&mut s, "color:");
            push_str(&mut s, c);
            push_str(&mut s, ";");
        },
        None => {},
    }
    push_str(&mut s, caller_style);
    proof {
        reveal_strlit("color:");
        reveal_strlit(";");
        assert(s@ =~= match color {
            Some(c) => "color:"@ + c@ + ";"@,
            None => Seq::empty(),
        } + caller_style@);
    }
    s
}

} // verus!
