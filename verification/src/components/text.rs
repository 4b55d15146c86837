//! The text component: the tag it renders with, its class, and the target
//! of its anchor link.

use crate::components::alert::caller_view;
use crate::components::renderer::class_list::{
    class_if, class_string, lemma_add_class_if, lemma_push_same,
};
use crate::components::{ClassList, TagName, TextAlign, TextStyle};
use crate::text::push_str;
use vstd::prelude::*;

verus! {

/// The tag of the text: the one given, else the style's tag.
pub fn resolved_tag(tag: &TagName, style: &TextStyle) -> (s: &'static str)
    ensures
        s@ == match tag.tag_of() {
            Some(t) => t,
            None => style.tag_of(),
        },
{
    match tag.as_str() {
        Some(t) => t,
        None => style.auto_tag(),
    }
}

/// The class of the text: the style's class, the caller's class, then the
/// alignment's class when it has one.
pub open spec fn text_class(style: TextStyle, caller: Seq<char>, align: TextAlign) -> Seq<char> {
    class_string(
        seq![style.class_of(), caller] + match align.class_of() {
            Some(c) => seq![c],
            None => Seq::empty(),
        },
    )
}

/// The class of the text.
pub fn text_css_class(style: &TextStyle, caller: Option<&str>, align: TextAlign) -> (s: String)
    ensures
        s@ == text_class(*style, caller_view(caller), align),
{
    let root = style.css_class();
    let l0 = ClassList::create(root);
    let l1 = l0.add_caller_class(caller);
    let ghost p1 = seq![style.class_of(), caller_view(caller)];
    proof {
        crate::components::dropdown_base::lemma_create_kept(root@);
        lemma_add_class_if(l0@, seq![root@], caller_view(caller), true);
        assert(seq![root@].push(class_if(true, caller_view(caller))) =~= p1);
    }
    let l2 = l1.add_text_align(align);
    proof {
        match align.class_of() {
            Some(c) => {
                lemma_push_same(l1@, p1, c);
                assert(p1.push(c) =~= p1 + seq![c]);
            },
            None => {
                assert(p1 =~= p1 + Seq::<Seq<char>>::empty());
            },
        }
    }
    l2.finish()
}

/// The target of the anchor link: `#` and the anchor.
pub fn anchor_href(anchor: &str) -> (s: String)
    ensures
        s@ == "#"@ + anchor@,
{
    let mut s = String::new();
    push_str(&mut s, "#");
    push_str(&mut s, anchor);
    proof {
        reveal_strlit("#");
        assert(s@ =~= "#"@ + anchor@);
    }
    s
}

} // verus!
