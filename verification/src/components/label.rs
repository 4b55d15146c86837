//! The label's class.

use crate::components::alert::caller_view;
use crate::components::renderer::class_list::{
    class_if, class_string, lemma_add_class_if, lemma_created,
};
use crate::components::ClassList;
use vstd::prelude::*;

verus! {

/// The label's class: `rz-label`, then the caller's class.
pub fn label_css_class(caller: Option<&str>) -> (s: String)
    ensures
        s@ == class_string(seq!["rz-label"@, caller_view(caller)]),
{
    let l0 = ClassList::create("rz-label");
    let l1 = l0.add_caller_class(caller);
    proof {
        reveal_strlit("rz-label");
        lemma_created("rz-label"@);
        let p0 = seq!["rz-label"@];
        lemma_add_class_if(l0@, p0, caller_view(caller), true);
        assert(p0.push(class_if(true, caller_view(caller))) =~= seq![
            "rz-label"@,
            caller_view(caller),
        ]);
    }
    l1.finish()
}

} // verus!
