//! What the dropdown-family components share: the item model, the settings,
//! filtering the items by typed text, whether a value is held, and the root
//! class.

use crate::components::renderer::class_list::{class_if, class_string, lemma_add_class_if};
use crate::components::ClassList;
use crate::text::{
    contains_seq, is_blank, kept, lemma_first_char_not_blank, lemma_kept_push, lowercase,
    str_contains, str_is_blank, to_lowercase,
};
use vstd::prelude::*;

verus! {

/// A single selectable item in any dropdown-family component.
#[derive(Clone, Debug, PartialEq)]
pub struct DropDownItem {
    /// Logical key stored in the value.
    pub value: String,
    /// Human-readable text shown in the list and in the selected-value display.
    pub label: String,
    /// When `true` the item cannot be selected.
    pub disabled: bool,
}

impl DropDownItem {
    /// An enabled item.
    pub fn new(value: &str, label: &str) -> (r: Self)
        ensures
            r.value@ == value@,
            r.label@ == label@,
            !r.disabled,
    {
        DropDownItem { value: value.to_owned(), label: label.to_owned(), disabled: false }
    }

    /// The same item, disabled.
    pub fn disabled(self) -> (r: Self)
        ensures
            r.value == self.value,
            r.label == self.label,
            r.disabled,
    {
        let mut item = self;
        item.disabled = true;
        item
    }

    /// A copy of the item.
    pub fn copy(&self) -> (r: Self)
        ensures
            r == *self,
    {
        DropDownItem { value: self.value.clone(), label: self.label.clone(), disabled: self.disabled }
    }
}

/// The settings shared by the dropdown-family components.
pub struct DropDownProps {
    /// `name` attribute of the hidden input, also its `id`.
    pub name: Option<String>,
    /// Placeholder shown when nothing is selected.
    pub placeholder: Option<String>,
    /// Whether the component is disabled.
    pub disabled: bool,
    /// Tab order.
    pub tab_index: i32,
    /// Items shown in the list.
    pub data: Vec<DropDownItem>,
    /// Several items can be selected.
    pub multiple: bool,
    /// A filter input is shown in the popup.
    pub allow_filtering: bool,
    /// A "select all" checkbox is shown in the header of a multiple selection.
    pub allow_select_all: bool,
    /// A clear button is shown.
    pub allow_clear: bool,
    /// Placeholder of the filter input.
    pub filter_placeholder: String,
    /// Most selected labels shown before the count is shown instead.
    pub max_selected_labels: usize,
    /// Text shown after the count of selected items.
    pub selected_items_text: String,
    /// Style of the list in the popup.
    pub popup_style: String,
}

impl Default for DropDownProps {
    fn default() -> (r: Self)
        ensures
            r.name is None,
            r.placeholder is None,
            !r.disabled,
            r.tab_index == 0,
            r.data@.len() == 0,
            !r.multiple,
            !r.allow_filtering,
            r.allow_select_all,
            !r.allow_clear,
            r.filter_placeholder@ == Seq::<char>::empty(),
            r.max_selected_labels == 4,
            r.selected_items_text@ == "items selected"@,
            r.popup_style@ == "max-height:200px;overflow-x:hidden"@,
    {
        DropDownProps {
            name: None,
            placeholder: None,
            disabled: false,
            tab_index: 0,
            data: Vec::new(),
            multiple: false,
            allow_filtering: false,
            allow_select_all: true,
            allow_clear: false,
            filter_placeholder: String::new(),
            max_selected_labels: 4,
            selected_items_text: "items selected".to_owned(),
            popup_style: "max-height:200px;overflow-x:hidden".to_owned(),
        }
    }
}

impl DropDownProps {
    /// The tab order, -1 when disabled.
    pub fn effective_tab(&self) -> (r: i32)
        ensures
            r == if self.disabled {
                -1i32
            } else {
                self.tab_index
            },
    {
        if self.disabled {
            -1
        } else {
            self.tab_index
        }
    }
}

/// Whether an item's label holds `needle`: the label as it is when the
/// filter is case-sensitive, else its lowercase mapping.
pub open spec fn label_matches(item: DropDownItem, needle: Seq<char>, case_sensitive: bool) -> bool {
    contains_seq(
        if case_sensitive {
            item.label@
        } else {
            lowercase(item.label@)
        },
        needle,
    )
}

/// The items shown for a filter text: all of them when filtering is off or
/// the text is blank, else those whose label holds the text (both taken in
/// lowercase unless the filter is case-sensitive), in order.
pub open spec fn filtered(
    items: Seq<DropDownItem>,
    allow_filtering: bool,
    filter: Seq<char>,
    case_sensitive: bool,
) -> Seq<DropDownItem> {
    if !allow_filtering || is_blank(filter) {
        items
    } else {
        let needle = if case_sensitive {
            filter
        } else {
            lowercase(filter)
        };
        items.filter(|item: DropDownItem| label_matches(item, needle, case_sensitive))
    }
}

/// The items shown for a filter text.
pub fn filter_items(
    items: &Vec<DropDownItem>,
    allow_filtering: bool,
    filter: &str,
    case_sensitive: bool,
) -> (r: Vec<DropDownItem>)
    ensures
        r@ == filtered(items@, allow_filtering, filter@, case_sensitive),
{
    let mut out: Vec<DropDownItem> = Vec::new();
    if !allow_filtering || str_is_blank(filter) {
        let mut i: usize = 0;
        while i < items.len()
            invariant
                i <= items.len(),
                out@ == items@.take(i as int),
            decreases items.len() - i,
        {
            out.push(items[i].copy());
            assert(out@ =~= items@.take(i + 1));
            i = i + 1;
        }
        assert(items@.take(items.len() as int) =~= items@);
        return out;
    }
    let needle: String = if case_sensitive {
        filter.to_owned()
    } else {
        to_lowercase(filter)
    };
    let ghost pred = |item: DropDownItem| label_matches(item, needle@, case_sensitive);
    let mut i: usize = 0;
    while i < items.len()
        invariant
            i <= items.len(),
            pred == (|item: DropDownItem| label_matches(item, needle@, case_sensitive)),
            out@ == items@.take(i as int).filter(pred),
        decreases items.len() - i,
    {
        let item = &items[i];
        let hay: String = if case_sensitive {
            item.label.clone()
        } else {
            to_lowercase(item.label.as_str())
        };
        let keep = str_contains(hay.as_str(), needle.as_str());
        proof {
            reveal_with_fuel(Seq::filter, 1);
            assert(items@.take(i + 1).drop_last() =~= items@.take(i as int));
            assert(keep == pred(items@[i as int]));
        }
        if keep {
            out.push(item.copy());
        }
        i = i + 1;
    }
    assert(items@.take(items.len() as int) =~= items@);
    out
}

/// Whether a value is held: some selected value when several can be, else
/// a non-empty value; nothing is held without a bound value.
pub fn drop_down_has_value(multiple: bool, value: Option<&str>, values: Option<&Vec<String>>) -> (r:
    bool)
    ensures
        r == if multiple {
            values matches Some(v) && v@.len() > 0
        } else {
            value matches Some(v) && v@.len() > 0
        },
{
    if multiple {
        match values {
            Some(v) => v.len() > 0,
            None => false,
        }
    } else {
        match value {
            Some(v) => !v.is_empty(),
            None => false,
        }
    }
}

/// A list created with `root` keeps the classes that `[root]` keeps.
pub proof fn lemma_create_kept(root: Seq<char>)
    ensures
        kept(
            if is_blank(root) {
                Seq::<Seq<char>>::empty()
            } else {
                seq![root]
            },
        ) == kept(seq![root]),
{
    lemma_kept_push(Seq::empty(), root);
    assert(Seq::<Seq<char>>::empty().push(root) =~= seq![root]);
    reveal_with_fuel(Seq::filter, 1);
}

/// The classes that the `(class, condition)` pairs add.
pub open spec fn extra_classes(extras: Seq<(&str, bool)>) -> Seq<Seq<char>> {
    extras.map_values(|e: (&str, bool)| class_if(e.1, e.0@))
}

/// The root class of a dropdown-family component: the root, the disabled and
/// empty states, the component's extras, then the caller's class.
pub open spec fn drop_down_class(
    root: Seq<char>,
    extras: Seq<(&str, bool)>,
    disabled: bool,
    has_value: bool,
    caller: Option<Seq<char>>,
) -> Seq<char> {
    class_string(
        seq![root, class_if(disabled, "rz-state-disabled"@), class_if(!has_value, "rz-state-empty"@)]
            + extra_classes(extras) + seq![
            match caller {
                Some(c) => c,
                None => Seq::empty(),
            },
        ],
    )
}

/// Builds the root class of a dropdown-family component; `extras` are
/// `(class, condition)` pairs added after the disabled and empty states and
/// before the caller's class.
pub fn build_drop_down_root_class(
    root: &str,
    extras: &[(&str, bool)],
    disabled: bool,
    has_value: bool,
    caller_class: Option<&str>,
) -> (s: String)
    ensures
        s@ == drop_down_class(
            root@,
            extras@,
            disabled,
            has_value,
            match caller_class {
                Some(c) => Some(c@),
                None => None,
            },
        ),
{
    let l0 = ClassList::create(root);
    let l1 = l0.add_disabled(disabled);
    let l2 = l1.add("rz-state-empty", !has_value);
    let ghost p0 = seq![root@];
    let ghost p2 = seq![
        root@,
        class_if(disabled, "rz-state-disabled"@),
        class_if(!has_value, "rz-state-empty"@),
    ];
    proof {
        reveal_strlit("rz-state-disabled");
        reveal_strlit("rz-state-empty");
        lemma_create_kept(root@);
        lemma_first_char_not_blank("rz-state-disabled"@);
        lemma_add_class_if(l0@, p0, "rz-state-disabled"@, disabled);
        let p1 = p0.push(class_if(disabled, "rz-state-disabled"@));
        lemma_add_class_if(l1@, p1, "rz-state-empty"@, !has_value);
        assert(p1.push(class_if(!has_value, "rz-state-empty"@)) =~= p2);
    }
    let mut cl = l2;
    let mut i: usize = 0;
    while i < extras.len()
        invariant
            i <= extras@.len(),
            kept(cl@) == kept(p2 + extra_classes(extras@.take(i as int))),
        decreases extras@.len() - i,
    {
        let (class, condition) = extras[i];
        let ghost before = cl@;
        cl = cl.add(class, condition);
        proof {
            let pi = p2 + extra_classes(extras@.take(i as int));
            lemma_add_class_if(before, pi, class@, condition);
            assert(extras@.take(i + 1) =~= extras@.take(i as int).push(extras@[i as int]));
            assert(p2 + extra_classes(extras@.take(i + 1)) =~= pi.push(class_if(condition, class@)));
        }
        i = i + 1;
    }
    let ghost pe = p2 + extra_classes(extras@);
    let ghost before = cl@;
    let done = cl.add_caller_class(caller_class);
    proof {
        assert(extras@.take(extras@.len() as int) =~= extras@);
        let c = match caller_class {
            Some(c) => c@,
            None => Seq::<char>::empty(),
        };
        lemma_add_class_if(before, pe, c, true);
        assert(pe.push(class_if(true, c)) =~= seq![root@, class_if(disabled, "rz-state-disabled"@), class_if(!has_value, "rz-state-empty"@)]
            + extra_classes(extras@) + seq![c]);
    }
    done.finish()
}

} // verus!
