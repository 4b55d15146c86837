//! The card's class.

use crate::components::alert::caller_view;
use crate::components::renderer::class_list::{
    class_if, class_string, lemma_add_class_if, lemma_created, lemma_push_same, variant_class,
};
use crate::components::{ClassList, Variant};
use vstd::prelude::*;

verus! {

/// The card's class: its variant, then the caller's class.
pub open spec fn card_class(variant: Variant, caller: Seq<char>) -> Seq<char> {
    class_string(seq!["rz-card"@, variant_class(variant), caller])
}

/// The card's class.
pub fn card_css_class(variant: Variant, caller: Option<&str>) -> (s: String)
    ensures
        s@ == card_class(variant, caller_view(caller)),
{
    let l0 = ClassList::create("rz-card");
    let l1 = l0.add_variant(variant);
    let l2 = l1.add_caller_class(caller);
    proof {
        reveal_strlit("rz-card");
        lemma_created("rz-card"@);
        let p0 = seq!["rz-card"@];
        lemma_push_same(l0@, p0, variant_class(variant));
        let p1 = p0.push(variant_class(variant));
        lemma_add_class_if(l1@, p1, caller_view(caller), true);
        assert(p1.push(class_if(true, caller_view(caller))) =~= seq![
            "rz-card"@,
            variant_class(variant),
            caller_view(caller),
        ]);
    }
    l2.finish()
}

} // verus!
