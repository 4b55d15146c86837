//! What the drop-down does: its classes, the text it shows for the
//! selection, selecting, selecting all and clearing, opening and closing the
//! popup, and how the popup is laid out.

use crate::components::dropdown_base::{
    build_drop_down_root_class, extra_classes, DropDownItem, DropDownProps,
};
use crate::components::renderer::class_list::{
    class_if, class_string, lemma_add_class_if, lemma_created,
};
use crate::components::selection::{
    multi_view, reports, single_view, toggle_value, toggled, SelectionValue,
};
use crate::components::ClassList;
use crate::text::{
    decimal, join_sep, join_strings, push_decimal, push_str, str_equals, views,
};
use vstd::prelude::*;

verus! {

/// The root class of the drop-down.
pub open spec fn dropdown_class(
    allow_clear: bool,
    chips: bool,
    multiple: bool,
    has_value: bool,
    open: bool,
    disabled: bool,
    caller: Seq<char>,
) -> Seq<char> {
    class_string(
        seq![
            "rz-dropdown"@,
            class_if(disabled, "rz-state-disabled"@),
            class_if(!has_value, "rz-state-empty"@),
            class_if(allow_clear, "rz-clear"@),
            class_if(chips && has_value && multiple, "rz-dropdown-chips"@),
            class_if(open, "rz-state-focused"@),
            caller,
        ],
    )
}

/// The root class of the drop-down: chips show only for a multiple selection
/// that holds a value, and the focused state while the popup is open.
pub fn dropdown_root_class(
    allow_clear: bool,
    chips: bool,
    multiple: bool,
    has_value: bool,
    open: bool,
    disabled: bool,
    caller: &str,
) -> (s: String)
    ensures
        s@ == dropdown_class(allow_clear, chips, multiple, has_value, open, disabled, caller@),
{
    let has_chips = chips && has_value && multiple;
    let extras = [("rz-clear", allow_clear), ("rz-dropdown-chips", has_chips), ("rz-state-focused", open)];
    let s = build_drop_down_root_class(
        "rz-dropdown",
        extras.as_slice(),
        disabled,
        has_value,
        if caller.is_empty() {
            None
        } else {
            Some(caller)
        },
    );
    proof {
        assert(extra_classes(extras@) =~= seq![
            class_if(allow_clear, "rz-clear"@),
            class_if(has_chips, "rz-dropdown-chips"@),
            class_if(open, "rz-state-focused"@),
        ]);
        let c: Seq<char> = if caller@.len() == 0 {
            Seq::empty()
        } else {
            caller@
        };
        assert(c == caller@);
        assert(seq![
            "rz-dropdown"@,
            class_if(disabled, "rz-state-disabled"@),
            class_if(!has_value, "rz-state-empty"@),
        ] + extra_classes(extras@) + seq![c] =~= seq![
            "rz-dropdown"@,
            class_if(disabled, "rz-state-disabled"@),
            class_if(!has_value, "rz-state-empty"@),
            class_if(allow_clear, "rz-clear"@),
            class_if(has_chips, "rz-dropdown-chips"@),
            class_if(open, "rz-state-focused"@),
            caller@,
        ]);
    }
    s
}

/// The label of the first item whose value is `v`.
pub open spec fn label_of(items: Seq<DropDownItem>, v: Seq<char>) -> Option<Seq<char>>
    decreases items.len(),
{
    if items.len() == 0 {
        None
    } else if items[0].value@ == v {
        Some(items[0].label@)
    } else {
        label_of(items.skip(1), v)
    }
}

/// The labels of the selected values that some item has, in the order of
/// the selection.
pub open spec fn found_labels(items: Seq<DropDownItem>, values: Seq<Seq<char>>) -> Seq<Seq<char>>
    decreases values.len(),
{
    if values.len() == 0 {
        Seq::empty()
    } else {
        found_labels(items, values.drop_last()) + match label_of(items, values.last()) {
            Some(l) => seq![l],
            None => Seq::empty(),
        }
    }
}

/// The text shown for the selection. Several values: nothing when none is
/// selected, `"{count} {selected_items_text}"` when more than
/// `max_selected_labels` are, else their labels joined with `", "`. One
/// value: the label of its item, or nothing.
pub open spec fn selection_text(
    multiple: bool,
    values: Seq<Seq<char>>,
    value: Seq<char>,
    items: Seq<DropDownItem>,
    max_selected_labels: int,
    selected_items_text: Seq<char>,
) -> Seq<char> {
    if multiple {
        if values.len() == 0 {
            Seq::empty()
        } else if values.len() > max_selected_labels {
            decimal(values.len()) + " "@ + selected_items_text
        } else {
            join_sep(found_labels(items, values), ", "@)
        }
    } else {
        match label_of(items, value) {
            Some(l) => l,
            None => Seq::empty(),
        }
    }
}

/// The label of the first item whose value is `v`.
pub fn find_label(items: &Vec<DropDownItem>, v: &str) -> (r: Option<String>)
    ensures
        match r {
            Some(l) => label_of(items@, v@) == Some(l@),
            None => label_of(items@, v@) is None,
        },
{
    let mut i: usize = 0;
    assert(items@.skip(0) =~= items@);
    while i < items.len()
        invariant
            i <= items.len(),
            label_of(items@, v@) == label_of(items@.skip(i as int), v@),
        decreases items.len() - i,
    {
        proof {
            assert(items@.skip(i as int).skip(1) =~= items@.skip(i + 1));
            assert(items@.skip(i as int)[0] == items@[i as int]);
        }
        if str_equals(items[i].value.as_str(), v) {
            return Some(items[i].label.clone());
        }
        i = i + 1;
    }
    None
}

/// The text shown for the selection.
pub fn selected_label(
    multiple: bool,
    values: &Vec<String>,
    value: &str,
    items: &Vec<DropDownItem>,
    max_selected_labels: usize,
    selected_items_text: &str,
) -> (s: String)
    ensures
        s@ == selection_text(
            multiple,
            views(values@),
            value@,
            items@,
            max_selected_labels as int,
            selected_items_text@,
        ),
{
    if multiple {
        if values.len() == 0 {
            return String::new();
        }
        let count = values.len();
        if count > max_selected_labels {
            let mut s = String::new();
            push_decimal(&mut s, count as u64);
            push_str(&mut s, " ");
            push_str(&mut s, selected_items_text);
            proof {
                reveal_strlit(" ");
                assert(s@ =~= decimal(count as nat) + " "@ + selected_items_text@);
            }
            return s;
        }
        let mut labels: Vec<String> = Vec::new();
        let mut i: usize = 0;
        while i < values.len()
            invariant
                i <= values.len(),
                views(labels@) == found_labels(items@, views(values@).take(i as int)),
            decreases values.len() - i,
        {
            let ghost before = labels@;
            proof {
                assert(views(values@).take(i + 1).drop_last() =~= views(values@).take(i as int));
                assert(views(values@).take(i + 1).last() == values@[i as int]@);
            }
            match find_label(items, values[i].as_str()) {
                Some(l) => {
                    labels.push(l);
                    assert(views(labels@) =~= views(before).push(l@));
                },
                None => {},
            }
            assert(views(labels@) =~= found_labels(items@, views(values@).take(i + 1)));
            i = i + 1;
        }
        assert(views(values@).take(values.len() as int) =~= views(values@));
        proof {
            reveal_strlit(", ");
        }
        join_strings(&labels, ", ")
    } else {
        match find_label(items, value) {
            Some(l) => l,
            None => String::new(),
        }
    }
}

impl DropDownProps {
    /// The text shown for the selection, with the labels read from the full
    /// `data`: what the filter text hides from the list does not change how
    /// the selected items are shown.
    pub fn selected_text(&self, values: &Vec<String>, value: &str) -> (s: String)
        ensures
            s@ == selection_text(
                self.multiple,
                views(values@),
                value@,
                self.data@,
                self.max_selected_labels as int,
                self.selected_items_text@,
            ),
    {
        selected_label(
            self.multiple,
            values,
            value,
            &self.data,
            self.max_selected_labels,
            self.selected_items_text.as_str(),
        )
    }
}

/// The value of the hidden input: the selected values joined with `","`, or
/// the value; empty without a bound value.
pub fn hidden_value(multiple: bool, value: Option<&str>, values: Option<&Vec<String>>) -> (s: String)
    ensures
        s@ == if multiple {
            match values {
                Some(vs) => join_sep(views(vs@), ","@),
                None => Seq::empty(),
            }
        } else {
            match value {
                Some(v) => v@,
                None => Seq::empty(),
            }
        },
{
    if multiple {
        match values {
            Some(vs) => {
                proof {
                    reveal_strlit(",");
                }
                join_strings(vs, ",")
            },
            None => String::new(),
        }
    } else {
        match value {
            Some(v) => v.to_owned(),
            None => String::new(),
        }
    }
}

/// What an action on the drop-down reports.
pub struct DropDownChange {
    /// The change is reported with this text (the new value, or the selected
    /// values joined with `","`).
    pub changed: Option<String>,
    /// The popup closes, its filter text is cleared, and closing is reported.
    pub close: bool,
}

/// Selecting an item: nothing on a disabled or read-only drop-down. With
/// several values the item's value is toggled in a bound selection and the
/// change is reported with the values joined with `","`. With one value the
/// bound value becomes the item's, the change is reported with it, and the
/// popup closes.
pub fn select_item(
    item_value: &str,
    disabled: bool,
    read_only: bool,
    multiple: bool,
    v: &mut SelectionValue,
) -> (r: DropDownChange)
    ensures
        disabled || read_only ==> r.changed is None && !r.close && single_view(final(v).single)
            == single_view(old(v).single) && multi_view(final(v).multi) == multi_view(
            old(v).multi,
        ),
        !(disabled || read_only) && multiple ==> single_view(final(v).single) == single_view(
            old(v).single,
        ) && !r.close && match old(v).multi {
            Some(m) => ({
                let t = toggled(views(m@), item_value@);
                multi_view(final(v).multi) == Some(t) && reports(r.changed, join_sep(t, ","@))
            }),
            None => final(v).multi is None && r.changed is None,
        },
        !(disabled || read_only) && !multiple ==> multi_view(final(v).multi) == multi_view(
            old(v).multi,
        ) && r.close && reports(r.changed, item_value@) && single_view(
            final(v).single,
        ) == match old(v).single {
            Some(_) => Some(item_value@),
            None => None,
        },
{
    if disabled || read_only {
        return DropDownChange { changed: None, close: false };
    }
    if multiple {
        match &mut v.multi {
            Some(m) => {
                toggle_value(m, item_value);
                proof {
                    reveal_strlit(",");
                }
                let joined = join_strings(m, ",");
                DropDownChange { changed: Some(joined), close: false }
            },
            None => DropDownChange { changed: None, close: false },
        }
    } else {
        if v.single.is_some() {
            v.single = Some(item_value.to_owned());
        }
        DropDownChange { changed: Some(item_value.to_owned()), close: true }
    }
}

/// The values of the items that can be selected, in order.
pub open spec fn enabled_values(items: Seq<DropDownItem>) -> Seq<Seq<char>>
    decreases items.len(),
{
    if items.len() == 0 {
        Seq::empty()
    } else {
        enabled_values(items.drop_last()) + if items.last().disabled {
            Seq::empty()
        } else {
            seq![items.last().value@]
        }
    }
}

/// The values of the items that can be selected.
pub fn enabled_item_values(items: &Vec<DropDownItem>) -> (r: Vec<String>)
    ensures
        views(r@) == enabled_values(items@),
{
    let mut r: Vec<String> = Vec::new();
    let mut i: usize = 0;
    while i < items.len()
        invariant
            i <= items.len(),
            views(r@) == enabled_values(items@.take(i as int)),
        decreases items.len() - i,
    {
        let ghost before = r@;
        assert(items@.take(i + 1).drop_last() =~= items@.take(i as int));
        if !items[i].disabled {
            r.push(items[i].value.clone());
            assert(views(r@) =~= views(before).push(items@[i as int].value@));
        }
        assert(views(r@) =~= enabled_values(items@.take(i + 1)));
        i = i + 1;
    }
    assert(items@.take(items.len() as int) =~= items@);
    r
}

/// Whether a selection holds as many values as there are selectable items,
/// and there is at least one.
pub open spec fn all_chosen(selected: Seq<Seq<char>>, items: Seq<DropDownItem>) -> bool {
    selected.len() == enabled_values(items).len() && enabled_values(items).len() > 0
}

/// The "select all" checkbox: nothing on a disabled or read-only drop-down or
/// without a bound selection. When every selectable item is chosen, the
/// selection empties and the change is reported with an empty text;
/// otherwise the selection becomes the values of the selectable items and the
/// change is reported with them joined with `","`.
pub fn select_all(
    disabled: bool,
    read_only: bool,
    items: &Vec<DropDownItem>,
    multi: &mut Option<Vec<String>>,
) -> (r: Option<String>)
    ensures
        disabled || read_only ==> r is None && multi_view(*final(multi)) == multi_view(*old(multi)),
        !(disabled || read_only) ==> match *old(multi) {
            Some(m) => if all_chosen(views(m@), items@) {
                multi_view(*final(multi)) == Some(Seq::<Seq<char>>::empty()) && reports(
                    r,
                    Seq::empty(),
                )
            } else {
                multi_view(*final(multi)) == Some(enabled_values(items@)) && reports(
                    r,
                    join_sep(enabled_values(items@), ","@),
                )
            },
            None => r is None && *final(multi) is None,
        },
{
    if disabled || read_only {
        return None;
    }
    match multi {
        Some(m) => {
            let all = enabled_item_values(items);
            let currently_all = m.len() == all.len() && all.len() > 0;
            proof {
                assert(views(all@).len() == all@.len());
                assert(views(m@).len() == m@.len());
            }
            if currently_all {
                *m = Vec::new();
                assert(views(m@) =~= Seq::<Seq<char>>::empty());
                Some(String::new())
            } else {
                proof {
                    reveal_strlit(",");
                }
                let joined = join_strings(&all, ",");
                *m = all;
                Some(joined)
            }
        },
        None => None,
    }
}

/// Clearing: nothing on a disabled or read-only drop-down. Otherwise the
/// bound values empty (each reported with an empty text) and the filter
/// text is cleared. Returns the change to report and whether the filter is
/// cleared.
pub fn clear_all(disabled: bool, read_only: bool, multiple: bool, v: &mut SelectionValue) -> (r: (
    Option<String>,
    bool,
))
    ensures
        disabled || read_only ==> r.0 is None && !r.1 && single_view(final(v).single)
            == single_view(old(v).single) && multi_view(final(v).multi) == multi_view(
            old(v).multi,
        ),
        !(disabled || read_only) ==> r.1,
        !(disabled || read_only) && multiple ==> single_view(final(v).single) == single_view(
            old(v).single,
        ) && match old(v).multi {
            Some(_) => multi_view(final(v).multi) == Some(Seq::<Seq<char>>::empty()) && reports(
                r.0,
                Seq::empty(),
            ),
            None => final(v).multi is None && r.0 is None,
        },
        !(disabled || read_only) && !multiple ==> multi_view(final(v).multi) == multi_view(
            old(v).multi,
        ) && match old(v).single {
            Some(_) => single_view(final(v).single) == Some(Seq::<char>::empty()) && reports(
                r.0,
                Seq::empty(),
            ),
            None => final(v).single is None && r.0 is None,
        },
{
    if disabled || read_only {
        return (None, false);
    }
    if multiple {
        match &mut v.multi {
            Some(m) => {
                *m = Vec::new();
                assert(views(m@) =~= Seq::<Seq<char>>::empty());
                (Some(String::new()), true)
            },
            None => (None, true),
        }
    } else {
        match &mut v.single {
            Some(s) => {
                *s = String::new();
                (Some(String::new()), true)
            },
            None => (None, true),
        }
    }
}

/// What happens to the popup.
#[derive(Clone, Copy, Debug, PartialEq, Eq, Structural)]
pub enum PopupAction {
    /// Nothing changes.
    Stay,
    /// Opening is reported and the popup opens.
    Open,
    /// The popup closes, its filter text is cleared, and closing is reported.
    Close,
    /// The popup closes and its filter text is cleared, without a report.
    Dismiss,
}

/// A click on the drop-down: nothing when disabled or read-only, else an open
/// popup closes and a closed one opens.
pub fn toggle_popup(open: bool, disabled: bool, read_only: bool) -> (r: PopupAction)
    ensures
        r == if disabled || read_only {
            PopupAction::Stay
        } else if open {
            PopupAction::Close
        } else {
            PopupAction::Open
        },
{
    if disabled || read_only {
        PopupAction::Stay
    } else if open {
        PopupAction::Close
    } else {
        PopupAction::Open
    }
}

/// A key on the drop-down: Escape and Tab close the popup; Enter, Space and
/// ArrowDown are taken (their default action is prevented) and open a closed
/// popup. Returns whether the default action is prevented, and what happens.
pub fn popup_key(key: &str, open: bool) -> (r: (bool, PopupAction))
    ensures
        (key@ == "Escape"@ || key@ == "Tab"@) ==> r == (false, PopupAction::Close),
        !(key@ == "Escape"@ || key@ == "Tab"@) && (key@ == "Enter"@ || key@ == " "@ || key@
            == "ArrowDown"@) ==> r == (
            true,
            if open {
                PopupAction::Stay
            } else {
                PopupAction::Open
            },
        ),
        !(key@ == "Escape"@ || key@ == "Tab"@ || key@ == "Enter"@ || key@ == " "@ || key@
            == "ArrowDown"@) ==> r == (false, PopupAction::Stay),
{
    if str_equals(key, "Escape") || str_equals(key, "Tab") {
        (false, PopupAction::Close)
    } else if str_equals(key, "Enter") || str_equals(key, " ") || str_equals(key, "ArrowDown") {
        (
            true,
            if open {
                PopupAction::Stay
            } else {
                PopupAction::Open
            },
        )
    } else {
        (false, PopupAction::Stay)
    }
}

/// Losing focus: the popup is dismissed unless the focus moved to an element
/// inside the drop-down.
pub fn blur_action(focus_stayed_inside: bool) -> (r: PopupAction)
    ensures
        r == if focus_stayed_inside {
            PopupAction::Stay
        } else {
            PopupAction::Dismiss
        },
{
    if focus_stayed_inside {
        PopupAction::Stay
    } else {
        PopupAction::Dismiss
    }
}

/// `"true"` or `"false"`, for an ARIA attribute.
pub fn aria_flag(b: bool) -> (s: &'static str)
    ensures
        s@ == if b {
            "true"@
        } else {
            "false"@
        },
{
    if b {
        "true"
    } else {
        "false"
    }
}

/// How the popup is laid out.
pub struct PanelLayout {
    /// Class of the popup.
    pub panel_class: &'static str,
    /// Position style of the popup: above the input when it flips up, else
    /// below.
    pub position_style: &'static str,
    /// A filter input shows above the list of a single selection.
    pub single_filter: bool,
    /// A header shows above the list of a multiple selection.
    pub multi_header: bool,
    /// The header holds the "select all" checkbox.
    pub select_all_box: bool,
    /// The header holds the filter input.
    pub header_filter: bool,
    /// The header holds a clear button.
    pub header_clear: bool,
    /// Every selectable item is chosen.
    pub all_selected: bool,
    /// Class of the list's wrapper.
    pub wrapper_class: &'static str,
    /// Class of the list.
    pub list_class: &'static str,
    /// Root class of each item.
    pub item_class: &'static str,
}

/// The popup's layout. The header of a multiple selection shows when select
/// all or filtering is allowed; its clear button shows when clearing is
/// allowed on an editable drop-down that holds values; the "select all"
/// checkbox is checked when the selection holds as many values as there are
/// selectable items, and there is at least one.
pub fn panel_layout(
    multiple: bool,
    allow_filtering: bool,
    allow_select_all: bool,
    allow_clear: bool,
    read_only: bool,
    flip_up: bool,
    items: &Vec<DropDownItem>,
    values: Option<&Vec<String>>,
) -> (r: PanelLayout)
    ensures
        r.panel_class@ == if multiple {
            "rz-multiselect-panel"@
        } else {
            "rz-dropdown-panel"@
        },
        r.position_style@ == if flip_up {
            "position: absolute; bottom: 100%; left: 0; right: 0; width: 100%; z-index: 2000; box-sizing: border-box;"@
        } else {
            "position: absolute; top: 100%; left: 0; right: 0; width: 100%; z-index: 2000; box-sizing: border-box;"@
        },
        r.single_filter == (!multiple && allow_filtering),
        r.multi_header == (multiple && (allow_select_all || allow_filtering)),
        r.select_all_box == allow_select_all,
        r.header_filter == allow_filtering,
        r.header_clear == (allow_clear && !read_only && (values matches Some(vs) && vs@.len() > 0)),
        r.all_selected == (values matches Some(vs) && vs@.len() > 0 && vs@.len()
            == enabled_values(items@).len()),
        r.wrapper_class@ == if multiple {
            "rz-multiselect-items-wrapper"@
        } else {
            "rz-dropdown-items-wrapper"@
        },
        r.list_class@ == if multiple {
            "rz-multiselect-items rz-multiselect-list"@
        } else {
            "rz-dropdown-items rz-dropdown-list"@
        },
        r.item_class@ == if multiple {
            "rz-multiselect-item"@
        } else {
            "rz-dropdown-item"@
        },
{
    let enabled = enabled_item_values(items);
    proof {
        assert(views(enabled@).len() == enabled@.len());
    }
    let (has_values, all_selected) = match values {
        Some(vs) => (vs.len() > 0, vs.len() > 0 && vs.len() == enabled.len()),
        None => (false, false),
    };
    PanelLayout {
        panel_class: if multiple {
            "rz-multiselect-panel"
        } else {
            "rz-dropdown-panel"
        },
        position_style: if flip_up {
            "position: absolute; bottom: 100%; left: 0; right: 0; width: 100%; z-index: 2000; box-sizing: border-box;"
        } else {
            "position: absolute; top: 100%; left: 0; right: 0; width: 100%; z-index: 2000; box-sizing: border-box;"
        },
        single_filter: !multiple && allow_filtering,
        multi_header: multiple && (allow_select_all || allow_filtering),
        select_all_box: allow_select_all,
        header_filter: allow_filtering,
        header_clear: allow_clear && !read_only && has_values,
        all_selected,
        wrapper_class: if multiple {
            "rz-multiselect-items-wrapper"
        } else {
            "rz-dropdown-items-wrapper"
        },
        list_class: if multiple {
            "rz-multiselect-items rz-multiselect-list"
        } else {
            "rz-dropdown-items rz-dropdown-list"
        },
        item_class: if multiple {
            "rz-multiselect-item"
        } else {
            "rz-dropdown-item"
        },
    }
}

/// The classes of a checkbox's box and icon.
pub fn checkbox_classes(checked: bool) -> (r: (&'static str, &'static str))
    ensures
        r.0@ == if checked {
            "notranslate rz-chkbox-box rz-state-active"@
        } else {
            "notranslate rz-chkbox-box"@
        },
        r.1@ == if checked {
            "notranslate rz-chkbox-icon rzi rzi-check"@
        } else {
            "notranslate rz-chkbox-icon"@
        },
{
    if checked {
        ("notranslate rz-chkbox-box rz-state-active", "notranslate rz-chkbox-icon rzi rzi-check")
    } else {
        ("notranslate rz-chkbox-box", "notranslate rz-chkbox-icon")
    }
}

/// The class of an item of the list.
pub open spec fn item_class_of(base: Seq<char>, selected: bool, disabled: bool) -> Seq<char> {
    class_string(
        seq![
            base,
            class_if(selected, "rz-state-highlight"@),
            class_if(disabled, "rz-state-disabled"@),
        ],
    )
}

/// The class of an item of the list: highlighted when selected.
pub fn list_item_class(base: &str, selected: bool, disabled: bool) -> (s: String)
    ensures
        s@ == item_class_of(base@, selected, disabled),
{
    let l0 = ClassList::create(base);
    let l1 = l0.add("rz-state-highlight", selected);
    let l2 = l1.add_disabled(disabled);
    proof {
        reveal_strlit("rz-state-highlight");
        reveal_strlit("rz-state-disabled");
        crate::components::dropdown_base::lemma_create_kept(base@);
        let p0 = seq![base@];
        lemma_add_class_if(l0@, p0, "rz-state-highlight"@, selected);
        let p1 = p0.push(class_if(selected, "rz-state-highlight"@));
        lemma_created("rz-state-disabled"@);
        lemma_add_class_if(l1@, p1, "rz-state-disabled"@, disabled);
        assert(p1.push(class_if(disabled, "rz-state-disabled"@)) =~= seq![
            base@,
            class_if(selected, "rz-state-highlight"@),
            class_if(disabled, "rz-state-disabled"@),
        ]);
    }
    l2.finish()
}

/// Whether the clear button inside the drop-down shows: for a single value
/// that is held, when clearing is allowed and the drop-down is editable.
pub fn shows_clear_button(multiple: bool, allow_clear: bool, read_only: bool, has_value: bool) -> (r:
    bool)
    ensures
        r == (!multiple && allow_clear && !read_only && has_value),
{
    !multiple && allow_clear && !read_only && has_value
}

/// What the label shows: the selection's text, else the placeholder (marked
/// as one), else a no-break space. Returns the class and the text.
pub fn label_display(label: &str, placeholder: Option<&str>) -> (r: (&'static str, String))
    ensures
        label@.len() > 0 ==> r.0@ == "rz-dropdown-label rz-inputtext"@ && r.1@ == label@,
        label@.len() == 0 ==> match placeholder {
            Some(p) => r.0@ == "rz-dropdown-label rz-inputtext rz-placeholder"@ && r.1@ == p@,
            None => r.0@ == "rz-dropdown-label rz-inputtext"@ && r.1@ == seq!['\u{a0}'],
        },
{
    if !label.is_empty() {
        ("rz-dropdown-label rz-inputtext", label.to_owned())
    } else {
        match placeholder {
            Some(p) => ("rz-dropdown-label rz-inputtext rz-placeholder", p.to_owned()),
            None => {
                let mut s = String::new();
                crate::text::push_char(&mut s, '\u{a0}');
                assert(s@ =~= seq!['\u{a0}']);
                ("rz-dropdown-label rz-inputtext", s)
            },
        }
    }
}

/// "Select all" toggles: once it has chosen every selectable item, pressing
/// it again empties the selection (when there is a selectable item at all).
pub proof fn lemma_select_all_toggles(items: Seq<DropDownItem>)
    ensures
        all_chosen(enabled_values(items), items) == (enabled_values(items).len() > 0),
{
}

} // verus!
