//! What the select bar does: the registry of its items, selecting, keyboard
//! navigation between its buttons, and its classes.

use crate::components::button_size::ButtonSize;
use crate::components::orientation::Orientation;
use crate::components::renderer::class_list::{
    button_size_class, class_if, class_string, lemma_add_class_if, lemma_created,
};
use crate::components::selection::{
    multi_view, reports, single_view, toggle_value, toggled, SelectionValue,
};
use crate::components::ClassList;
use crate::text::{decimal, join_sep, join_strings, pick_key, push_decimal, push_str, str_equals, views};
use vstd::prelude::*;

verus! {

/// An item that registered with a select bar.
#[derive(Clone, Debug)]
pub struct SelectBarItemData {
    /// The value the item stands for.
    pub value: String,
    /// Its label.
    pub text: String,
    /// Name of an icon shown before the label.
    pub icon: Option<String>,
    /// URL of an image shown before the label.
    pub image_url: Option<String>,
    /// The item cannot be selected.
    pub disabled: bool,
    /// The item is shown.
    pub visible: bool,
}

impl SelectBarItemData {
    /// A copy of the item.
    pub fn copy(&self) -> (r: Self)
        ensures
            r == *self,
    {
        SelectBarItemData {
            value: self.value.clone(),
            text: self.text.clone(),
            icon: match &self.icon {
                Some(i) => Some(i.clone()),
                None => None,
            },
            image_url: match &self.image_url {
                Some(u) => Some(u.clone()),
                None => None,
            },
            disabled: self.disabled,
            visible: self.visible,
        }
    }
}

/// The values of the registered items.
pub open spec fn item_values(items: Seq<SelectBarItemData>) -> Seq<Seq<char>> {
    items.map_values(|i: SelectBarItemData| i.value@)
}

/// Registers an item with a select bar: it is added at the end unless an
/// item with the same value is registered already.
pub fn register_item(items: &mut Vec<SelectBarItemData>, item: SelectBarItemData)
    ensures
        item_values(old(items)@).contains(item.value@) ==> final(items)@ == old(items)@,
        !item_values(old(items)@).contains(item.value@) ==> final(items)@ == old(items)@.push(item),
{
    let mut i: usize = 0;
    while i < items.len()
        invariant
            i <= items.len(),
            forall|j: int| 0 <= j < i ==> items@[j].value@ != item.value@,
        decreases items.len() - i,
    {
        if str_equals(items[i].value.as_str(), item.value.as_str()) {
            assert(item_values(items@)[i as int] == item.value@);
            return;
        }
        i = i + 1;
    }
    proof {
        if item_values(items@).contains(item.value@) {
            let k = choose|k: int|
                0 <= k < item_values(items@).len() && item_values(items@)[k] == item.value@;
            assert(items@[k].value@ == item.value@);
        }
    }
    items.push(item);
}

/// Registering keeps the values of the registry distinct.
pub proof fn lemma_register_keeps_values_distinct(items: Seq<SelectBarItemData>, item: SelectBarItemData)
    requires
        item_values(items).no_duplicates(),
    ensures
        ({
            let after = if item_values(items).contains(item.value@) {
                items
            } else {
                items.push(item)
            };
            item_values(after).no_duplicates()
        }),
{
    if !item_values(items).contains(item.value@) {
        let after = items.push(item);
        assert(item_values(after) =~= item_values(items).push(item.value@));
        assert forall|i: int, j: int|
            0 <= i < item_values(after).len() && 0 <= j < item_values(after).len() && i != j
                implies item_values(after)[i] != item_values(after)[j] by {
            if i == items.len() as int {
                assert(item_values(items)[j] == item_values(after)[j]);
            } else if j == items.len() as int {
                assert(item_values(items)[i] == item_values(after)[i]);
            }
        }
    }
}

/// The items that are shown, in order.
pub open spec fn shown_items(items: Seq<SelectBarItemData>) -> Seq<SelectBarItemData> {
    items.filter(|i: SelectBarItemData| i.visible)
}

/// The items that are shown.
pub fn visible_items(items: &Vec<SelectBarItemData>) -> (r: Vec<SelectBarItemData>)
    ensures
        r@ == shown_items(items@),
{
    let mut r: Vec<SelectBarItemData> = Vec::new();
    let mut i: usize = 0;
    while i < items.len()
        invariant
            i <= items.len(),
            r@ == shown_items(items@.take(i as int)),
        decreases items.len() - i,
    {
        proof {
            reveal_with_fuel(Seq::filter, 1);
            assert(items@.take(i + 1).drop_last() =~= items@.take(i as int));
        }
        if items[i].visible {
            r.push(items[i].copy());
        }
        i = i + 1;
    }
    assert(items@.take(items.len() as int) =~= items@);
    r
}

/// Selecting an item's value: nothing on a disabled bar. With several values
/// the value is toggled in a bound selection and the change is reported with
/// the values joined with `","`; with one value the bound value becomes it and
/// the change is reported with it.
pub fn select_value(item_value: &str, disabled: bool, multiple: bool, v: &mut SelectionValue) -> (r:
    Option<String>)
    ensures
        disabled ==> r is None && single_view(final(v).single) == single_view(old(v).single)
            && multi_view(final(v).multi) == multi_view(old(v).multi),
        !disabled && multiple ==> single_view(final(v).single) == single_view(old(v).single)
            && match old(v).multi {
            Some(m) => ({
                let t = toggled(views(m@), item_value@);
                multi_view(final(v).multi) == Some(t) && reports(r, join_sep(t, ","@))
            }),
            None => final(v).multi is None && r is None,
        },
        !disabled && !multiple ==> multi_view(final(v).multi) == multi_view(old(v).multi)
            && reports(r, item_value@) && single_view(final(v).single) == match old(v).single {
            Some(_) => Some(item_value@),
            None => None,
        },
{
    if disabled {
        return None;
    }
    if multiple {
        match &mut v.multi {
            Some(m) => {
                toggle_value(m, item_value);
                proof {
                    reveal_strlit(",");
                }
                Some(join_strings(m, ","))
            },
            None => None,
        }
    } else {
        if v.single.is_some() {
            v.single = Some(item_value.to_owned());
        }
        Some(item_value.to_owned())
    }
}

/// Keyboard focus in the bar.
#[derive(Clone, Copy, Debug, PartialEq, Eq, Structural)]
pub struct BarFocus {
    /// Position of the focused button among the shown items; -1 for none.
    pub index: i32,
    /// The bar has the focus.
    pub focused: bool,
}

/// `v` clamped to `lo..=hi`.
pub open spec fn clamp(v: int, lo: int, hi: int) -> int {
    if v < lo {
        lo
    } else if v > hi {
        hi
    } else {
        v
    }
}

/// Where an arrow key moves the focus: one step in direction `dir`, then on
/// past disabled buttons, at most `tries` more steps, each clamped to the
/// buttons.
pub open spec fn skip_disabled(disabled: Seq<bool>, next: int, dir: int, tries: nat) -> int
    decreases tries,
{
    if tries == 0 || !(0 <= next < disabled.len() && disabled[next]) {
        next
    } else {
        skip_disabled(
            disabled,
            clamp(next + dir, 0, disabled.len() - 1),
            dir,
            (tries - 1) as nat,
        )
    }
}

/// The focus after an arrow key: from the focused button (or the first), one
/// step in direction `dir`, then past disabled buttons.
pub open spec fn arrow_target(disabled: Seq<bool>, current: int, dir: int) -> int {
    let start = if current < 0 {
        0
    } else {
        current
    };
    let count = disabled.len() as int;
    skip_disabled(disabled, clamp(start + dir, 0, count - 1), dir, count as nat)
}

/// What a key does in the bar.
pub struct BarKey {
    /// The key's default action is prevented.
    pub prevent_default: bool,
    /// The focus after the key.
    pub focus: BarFocus,
    /// Position of the shown item that the key selects.
    pub select: Option<usize>,
}

/// A key in the bar with `disabled` telling, for each shown item, whether it
/// is disabled. With no item shown nothing happens. ArrowLeft and ArrowRight
/// move the focus past disabled buttons; Home and End go to the first and last
/// button; Space and Enter select the focused button when it and the bar are
/// enabled. The key is the event's `code`, or its `key` when the code is
/// empty.
pub fn bar_key(
    code: &str,
    key: &str,
    st: BarFocus,
    disabled: &Vec<bool>,
    bar_disabled: bool,
) -> (r: BarKey)
    requires
        disabled@.len() <= i32::MAX,
        st.index < i32::MAX,
    ensures
        ({
            let k = if code@.len() == 0 {
                key@
            } else {
                code@
            };
            let count = disabled@.len() as int;
            if count == 0 {
                !r.prevent_default && r.focus == st && r.select is None
            } else if k == "ArrowLeft"@ || k == "ArrowRight"@ {
                r.prevent_default && r.select is None && r.focus == (BarFocus {
                    index: arrow_target(
                        disabled@,
                        st.index as int,
                        if k == "ArrowLeft"@ {
                            -1
                        } else {
                            1
                        },
                    ) as i32,
                    focused: true,
                })
            } else if k == "Home"@ {
                r.prevent_default && r.select is None && r.focus == (BarFocus { index: 0, focused: true })
            } else if k == "End"@ {
                r.prevent_default && r.select is None && r.focus == (BarFocus {
                    index: (count - 1) as i32,
                    focused: true,
                })
            } else if k == "Space"@ || k == "Enter"@ {
                r.prevent_default && r.focus == st && r.select == if 0 <= st.index < count
                    && !disabled@[st.index as int] && !bar_disabled {
                    Some(st.index as usize)
                } else {
                    None::<usize>
                }
            } else {
                !r.prevent_default && r.focus == st && r.select is None
            }
        }),
        r.focus.index == st.index || 0 <= r.focus.index < disabled@.len(),
{
    let k = pick_key(code, key);
    let n = disabled.len();
    if n == 0 {
        return BarKey { prevent_default: false, focus: st, select: None };
    }
    let count = n as i32;
    if str_equals(k, "ArrowLeft") || str_equals(k, "ArrowRight") {
        let dir: i32 = if str_equals(k, "ArrowLeft") {
            -1
        } else {
            1
        };
        let start = if st.index < 0 {
            0
        } else {
            st.index
        };
        let first = start + dir;
        let mut next: i32 = if first < 0 {
            0
        } else if first > count - 1 {
            count - 1
        } else {
            first
        };
        let mut tries: i32 = 0;
        let ghost target = skip_disabled(disabled@, next as int, dir as int, count as nat);
        while tries < count && disabled[next as usize]
            invariant
                0 <= tries <= count,
                count == disabled@.len(),
                0 <= next < count,
                dir == -1 || dir == 1,
                skip_disabled(disabled@, next as int, dir as int, (count - tries) as nat) == target,
            decreases count - tries,
        {
            let step = next + dir;
            next = if step < 0 {
                0
            } else if step > count - 1 {
                count - 1
            } else {
                step
            };
            tries = tries + 1;
        }
        proof {
            assert(target == arrow_target(disabled@, st.index as int, dir as int));
        }
        return BarKey {
            prevent_default: true,
            focus: BarFocus { index: next, focused: true },
            select: None,
        };
    }
    if str_equals(k, "Home") {
        return BarKey {
            prevent_default: true,
            focus: BarFocus { index: 0, focused: true },
            select: None,
        };
    }
    if str_equals(k, "End") {
        return BarKey {
            prevent_default: true,
            focus: BarFocus { index: count - 1, focused: true },
            select: None,
        };
    }
    if str_equals(k, "Space") || str_equals(k, "Enter") {
        let idx = st.index;
        let select = if idx >= 0 && idx < count && !disabled[idx as usize] && !bar_disabled {
            Some(idx as usize)
        } else {
            None
        };
        return BarKey { prevent_default: true, focus: st, select };
    }
    BarKey { prevent_default: false, focus: st, select: None }
}

/// The focus when the bar gains focus: focused, on the first button when none
/// was.
pub fn bar_focus(st: BarFocus) -> (r: BarFocus)
    ensures
        r == (BarFocus {
            index: if st.index < 0 {
                0
            } else {
                st.index
            },
            focused: true,
        }),
{
    BarFocus {
        index: if st.index < 0 {
            0
        } else {
            st.index
        },
        focused: true,
    }
}

/// The focus when the bar loses focus: the button stays, the bar is not
/// focused.
pub fn bar_blur(st: BarFocus) -> (r: BarFocus)
    ensures
        r == (BarFocus { index: st.index, focused: false }),
{
    BarFocus { index: st.index, focused: false }
}

/// A click on the button at `idx`: a disabled button does nothing, an enabled
/// one takes the focus and selects its item.
pub fn bar_click(st: BarFocus, idx: usize, item_disabled: bool) -> (r: (BarFocus, bool))
    requires
        idx <= i32::MAX,
    ensures
        item_disabled ==> r == (st, false),
        !item_disabled ==> r == (BarFocus { index: idx as i32, ..st }, true),
{
    if item_disabled {
        (st, false)
    } else {
        (BarFocus { index: idx as i32, ..st }, true)
    }
}

/// The orientation's part of the root class.
pub open spec fn orientation_suffix(o: Orientation) -> Seq<char> {
    match o {
        Orientation::Vertical => "vertical"@,
        Orientation::Horizontal => "horizontal"@,
    }
}

/// The root class of the bar: its orientation, the number of shown items,
/// then the caller's class.
pub open spec fn bar_class(o: Orientation, count: nat, caller: Seq<char>) -> Seq<char> {
    let base = "rz-selectbar rz-buttonset rz-selectbar-"@ + orientation_suffix(o)
        + " rz-buttonset-"@ + decimal(count);
    if caller.len() == 0 {
        base
    } else {
        base + " "@ + caller
    }
}

/// The root class of the bar.
pub fn select_bar_class(o: &Orientation, count: usize, caller: &str) -> (s: String)
    ensures
        s@ == bar_class(*o, count as nat, caller@),
{
    let mut s = String::new();
    push_str(&mut s, "rz-selectbar rz-buttonset rz-selectbar-");
    match o {
        Orientation::Vertical => push_str(&mut s, "vertical"),
        Orientation::Horizontal => push_str(&mut s, "horizontal"),
    }
    push_str(&mut s, " rz-buttonset-");
    push_decimal(&mut s, count as u64);
    if !caller.is_empty() {
        push_str(&mut s, " ");
        push_str(&mut s, caller);
    }
    proof {
        assert(s@ =~= bar_class(*o, count as nat, caller@));
    }
    s
}

/// The class of a button of the bar.
pub open spec fn bar_button_class(size: ButtonSize, selected: bool, focused: bool, disabled: bool) -> Seq<
    char,
> {
    class_string(
        seq![
            "rz-button rz-button-text-only"@,
            button_size_class(size),
            class_if(selected, "rz-state-active"@),
            class_if(focused, "rz-state-focused"@),
            class_if(disabled, "rz-state-disabled"@),
        ],
    )
}

/// The class of a button of the bar: its size, then active when selected,
/// focused when it has the keyboard focus, disabled.
pub fn button_class(size: ButtonSize, selected: bool, focused: bool, disabled: bool) -> (s: String)
    ensures
        s@ == bar_button_class(size, selected, focused, disabled),
{
    let l0 = ClassList::create("rz-button rz-button-text-only");
    let l1 = l0.add_button_size(size);
    let l2 = l1.add("rz-state-active", selected);
    let l3 = l2.add("rz-state-focused", focused);
    let l4 = l3.add_disabled(disabled);
    proof {
        reveal_strlit("rz-button rz-button-text-only");
        reveal_strlit("rz-state-active");
        reveal_strlit("rz-state-focused");
        reveal_strlit("rz-state-disabled");
        reveal_strlit("rz-button-xs");
        reveal_strlit("rz-button-sm");
        reveal_strlit("rz-button-md");
        reveal_strlit("rz-button-lg");
        lemma_created("rz-button rz-button-text-only"@);
        let p0 = seq!["rz-button rz-button-text-only"@];
        lemma_created(button_size_class(size));
        lemma_add_class_if(l0@, p0, button_size_class(size), true);
        let p1 = p0.push(class_if(true, button_size_class(size)));
        lemma_add_class_if(l1@, p1, "rz-state-active"@, selected);
        let p2 = p1.push(class_if(selected, "rz-state-active"@));
        lemma_add_class_if(l2@, p2, "rz-state-focused"@, focused);
        let p3 = p2.push(class_if(focused, "rz-state-focused"@));
        lemma_created("rz-state-disabled"@);
        lemma_add_class_if(l3@, p3, "rz-state-disabled"@, disabled);
        assert(p3.push(class_if(disabled, "rz-state-disabled"@)) =~= seq![
            "rz-button rz-button-text-only"@,
            button_size_class(size),
            class_if(selected, "rz-state-active"@),
            class_if(focused, "rz-state-focused"@),
            class_if(disabled, "rz-state-disabled"@),
        ]);
    }
    l4.finish()
}

/// The focus of an arrow key stays on the bar's buttons.
pub proof fn lemma_arrow_stays_in_bar(disabled: Seq<bool>, current: int, dir: int)
    requires
        disabled.len() > 0,
        dir == -1 || dir == 1,
    ensures
        0 <= arrow_target(disabled, current, dir) < disabled.len(),
{
    let count = disabled.len() as int;
    let start = if current < 0 {
        0
    } else {
        current
    };
    lemma_skip_in_range(disabled, clamp(start + dir, 0, count - 1), dir, count as nat);
}

proof fn lemma_skip_in_range(disabled: Seq<bool>, next: int, dir: int, tries: nat)
    requires
        disabled.len() > 0,
        0 <= next < disabled.len(),
    ensures
        0 <= skip_disabled(disabled, next, dir, tries) < disabled.len(),
    decreases tries,
{
    if tries > 0 && disabled[next] {
        lemma_skip_in_range(
            disabled,
            clamp(next + dir, 0, disabled.len() - 1),
            dir,
            (tries - 1) as nat,
        );
    }
}

/// When the button next to the focused one in the arrow's direction is
/// enabled, the arrow moves the focus to it.
pub proof fn lemma_arrow_moves_to_enabled_neighbour(disabled: Seq<bool>, current: int, dir: int)
    requires
        dir == -1 || dir == 1,
        0 <= current,
        0 <= current + dir < disabled.len(),
        !disabled[current + dir],
    ensures
        arrow_target(disabled, current, dir) == current + dir,
{
}

} // verus!
