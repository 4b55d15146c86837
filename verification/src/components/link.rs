//! The link: how it matches the current route, its class, and its icon's
//! style.

use crate::components::alert::caller_view;
use crate::components::renderer::class_list::{
    class_if, class_string, lemma_add_class_if, lemma_created,
};
use crate::components::ClassList;
use crate::text::push_str;
use vstd::prelude::*;

verus! {

/// How a link decides that it is active.
#[derive(Clone, Debug, PartialEq, Eq, Structural)]
pub enum NavLinkMatch {
    /// The link is active when the current path starts with its path.
    Prefix,
    /// The link is active only when the current path is its path.
    All,
}

impl Default for NavLinkMatch {
    fn default() -> (r: Self)
        ensures
            r == NavLinkMatch::Prefix,
    {
        NavLinkMatch::Prefix
    }
}

/// Whether the link matches the whole path only.
pub fn is_exact(m: &NavLinkMatch) -> (r: bool)
    ensures
        r == (*m == NavLinkMatch::All),
{
    match m {
        NavLinkMatch::All => true,
        NavLinkMatch::Prefix => false,
    }
}

/// The link's class: `rz-link-disabled` when disabled, then the caller's
/// class.
pub fn link_css_class(disabled: bool, caller: Option<&str>) -> (s: String)
    ensures
        s@ == class_string(
            seq!["rz-link"@, class_if(disabled, "rz-link-disabled"@), caller_view(caller)],
        ),
{
    let l0 = ClassList::create("rz-link");
    let l1 = l0.add("rz-link-disabled", disabled);
    let l2 = l1.add_caller_class(caller);
    proof {
        reveal_strlit("rz-link");
        reveal_strlit("rz-link-disabled");
        lemma_created("rz-link"@);
        let p0 = seq!["rz-link"@];
        lemma_add_class_if(l0@, p0, "rz-link-disabled"@, disabled);
        let p1 = p0.push(class_if(disabled, "rz-link-disabled"@));
        lemma_add_class_if(l1@, p1, caller_view(caller), true);
        assert(p1.push(class_if(true, caller_view(caller))) =~= seq![
            "rz-link"@,
            class_if(disabled, "rz-link-disabled"@),
            caller_view(caller),
        ]);
    }
    l2.finish()
}

/// The style that colors an icon: `color:{color}`, empty without a color.
pub fn color_style(color: Option<&str>) -> (s: String)
    ensures
        s@ == match color {
            Some(c) => "color:"@ + c@,
            None => Seq::empty(),
        },
{
    match color {
        Some(c) => {
            let mut s = String::new();
            push_str(&mut s, "color:");
            push_str(&mut s, c);
            proof {
                reveal_strlit("color:");
                assert(s@ =~= "color:"@ + c@);
            }
            s
        },
        None => String::new(),
    }
}

} // verus!
