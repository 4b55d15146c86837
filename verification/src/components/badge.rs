//! The badge's class.

use crate::components::alert::caller_view;
use crate::components::renderer::class_list::{
    badge_style_class, class_if, class_string, lemma_add_class_if, lemma_created, lemma_push_same,
    variant_class,
};
use crate::components::{BadgeStyle, ClassList, Shade, Variant};
use vstd::prelude::*;

verus! {

/// The badge's class: its style, variant and shade, `rz-badge-pill` for a
/// pill, then the caller's class.
pub open spec fn badge_class(
    style: BadgeStyle,
    variant: Variant,
    shade: Shade,
    is_pill: bool,
    caller: Seq<char>,
) -> Seq<char> {
    class_string(
        seq![
            "rz-badge"@,
            badge_style_class(style),
            variant_class(variant),
            shade.class_of(),
            class_if(is_pill, "rz-badge-pill"@),
            caller,
        ],
    )
}

/// The badge's class.
pub fn badge_css_class(
    style: BadgeStyle,
    variant: Variant,
    shade: Shade,
    is_pill: bool,
    caller: Option<&str>,
) -> (s: String)
    ensures
        s@ == badge_class(style, variant, shade, is_pill, caller_view(caller)),
{
    let l0 = ClassList::create("rz-badge");
    let l1 = l0.add_badge_style(style);
    let l2 = l1.add_variant(variant);
    let l3 = l2.add_shade(shade);
    let l4 = l3.add("rz-badge-pill", is_pill);
    let l5 = l4.add_caller_class(caller);
    proof {
        reveal_strlit("rz-badge");
        reveal_strlit("rz-badge-pill");
        lemma_created("rz-badge"@);
        let p0 = seq!["rz-badge"@];
        lemma_push_same(l0@, p0, badge_style_class(style));
        let p1 = p0.push(badge_style_class(style));
        lemma_push_same(l1@, p1, variant_class(variant));
        let p2 = p1.push(variant_class(variant));
        lemma_push_same(l2@, p2, shade.class_of());
        let p3 = p2.push(shade.class_of());
        lemma_add_class_if(l3@, p3, "rz-badge-pill"@, is_pill);
        let p4 = p3.push(class_if(is_pill, "rz-badge-pill"@));
        lemma_add_class_if(l4@, p4, caller_view(caller), true);
        assert(p4.push(class_if(true, caller_view(caller))) =~= seq![
            "rz-badge"@,
            badge_style_class(style),
            variant_class(variant),
            shade.class_of(),
            class_if(is_pill, "rz-badge-pill"@),
            caller_view(caller),
        ]);
    }
    l5.finish()
}

} // verus!
