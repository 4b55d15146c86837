//! Toggling a value in a selection of several values, as the date picker,
//! the drop-down and the select bar do when they take several values.

use crate::text::{str_equals, views};
use vstd::prelude::*;

verus! {

/// The first position of `x` in `s`, which holds it.
pub open spec fn first_position<T>(s: Seq<T>, x: T) -> int {
    choose|i: int| 0 <= i < s.len() && s[i] == x && forall|j: int| 0 <= j < i ==> s[j] != x
}

/// The selection after toggling `x`: its first occurrence leaves, or it is
/// added at the end.
pub open spec fn toggled<T>(s: Seq<T>, x: T) -> Seq<T> {
    if s.contains(x) {
        s.remove(first_position(s, x))
    } else {
        s.push(x)
    }
}

/// The first position of `x` in `s` is `i` when `s[i]` is `x` and no earlier
/// element is.
pub proof fn lemma_first_position<T>(s: Seq<T>, x: T, i: int)
    requires
        0 <= i < s.len(),
        s[i] == x,
        forall|j: int| 0 <= j < i ==> s[j] != x,
    ensures
        first_position(s, x) == i,
        s.contains(x),
{
    let p = first_position(s, x);
    assert(0 <= p < s.len() && s[p] == x && forall|j: int| 0 <= j < p ==> s[j] != x);
    if p < i {
        assert(s[p] != x);
    }
    if p > i {
        assert(s[i] != x);
    }
}

/// Toggling a value that is absent from the selection twice gives the
/// selection back.
pub proof fn lemma_toggle_twice<T>(s: Seq<T>, x: T)
    requires
        !s.contains(x),
    ensures
        toggled(toggled(s, x), x) == s,
{
    let t = s.push(x);
    assert(t[s.len() as int] == x);
    assert(t.contains(x));
    let p = first_position(t, x);
    assert(0 <= p < t.len() && t[p] == x && forall|j: int| 0 <= j < p ==> t[j] != x);
    if p < s.len() {
        assert(s[p] == x);
    }
    assert(t.remove(p) =~= s);
}

/// A toggle flips whether the value is selected, keeps every other value's
/// membership, and keeps a selection free of repeats.
pub proof fn lemma_toggle_flips<T>(s: Seq<T>, x: T, other: T)
    requires
        s.no_duplicates(),
        other != x,
    ensures
        toggled(s, x).contains(x) == !s.contains(x),
        toggled(s, x).contains(other) == s.contains(other),
        toggled(s, x).no_duplicates(),
{
    if s.contains(x) {
        let p = first_position(s, x);
        assert(0 <= p < s.len() && s[p] == x);
        let t = s.remove(p);
        assert(forall|i: int| 0 <= i < t.len() ==> t[i] == if i < p {
            s[i]
        } else {
            s[i + 1]
        });
        if t.contains(x) {
            let k = choose|k: int| 0 <= k < t.len() && t[k] == x;
            if k < p {
                assert(s[k] == s[p]);
            } else {
                assert(s[k + 1] == s[p]);
            }
        }
        if s.contains(other) {
            let k = choose|k: int| 0 <= k < s.len() && s[k] == other;
            if k < p {
                assert(t[k] == other);
            } else {
                assert(k != p);
                assert(t[k - 1] == other);
            }
        }
        if t.contains(other) {
            let k = choose|k: int| 0 <= k < t.len() && t[k] == other;
            if k < p {
                assert(s[k] == other);
            } else {
                assert(s[k + 1] == other);
            }
        }
    } else {
        let t = s.push(x);
        assert(t[s.len() as int] == x);
        if s.contains(other) {
            let k = choose|k: int| 0 <= k < s.len() && s[k] == other;
            assert(t[k] == other);
        }
        if t.contains(other) {
            let k = choose|k: int| 0 <= k < t.len() && t[k] == other;
            assert(k < s.len());
            assert(s[k] == other);
        }
    }
}

/// Whether `values` holds `v`.
pub fn holds_value(values: &Vec<String>, v: &str) -> (r: bool)
    ensures
        r == views(values@).contains(v@),
{
    let mut i: usize = 0;
    while i < values.len()
        invariant
            i <= values.len(),
            forall|j: int| 0 <= j < i ==> values@[j]@ != v@,
        decreases values.len() - i,
    {
        if str_equals(values[i].as_str(), v) {
            assert(views(values@)[i as int] == v@);
            return true;
        }
        i = i + 1;
    }
    proof {
        if views(values@).contains(v@) {
            let k = choose|k: int| 0 <= k < views(values@).len() && views(values@)[k] == v@;
            assert(values@[k]@ == v@);
        }
    }
    false
}

/// Whether an item's value is selected: among the bound values when several
/// can be, else equal to the bound value; nothing is selected without a
/// bound value.
pub fn is_value_selected(
    multiple: bool,
    value: Option<&str>,
    values: Option<&Vec<String>>,
    item_value: &str,
) -> (r: bool)
    ensures
        r == if multiple {
            values matches Some(vs) && views(vs@).contains(item_value@)
        } else {
            value matches Some(v) && v@ == item_value@
        },
{
    if multiple {
        match values {
            Some(vs) => holds_value(vs, item_value),
            None => false,
        }
    } else {
        match value {
            Some(v) => str_equals(v, item_value),
            None => false,
        }
    }
}

/// Removes the first occurrence of `v` from `values`, or appends it when it
/// is absent.
pub fn toggle_value(values: &mut Vec<String>, v: &str)
    ensures
        views(final(values)@) == toggled(views(old(values)@), v@),
{
    let ghost before = views(values@);
    let mut i: usize = 0;
    while i < values.len()
        invariant
            views(values@) == before,
            before == views(old(values)@),
            i <= values.len(),
            forall|j: int| 0 <= j < i ==> values@[j]@ != v@,
        decreases values.len() - i,
    {
        if str_equals(values[i].as_str(), v) {
            proof {
                assert forall|j: int| 0 <= j < i implies before[j] != v@ by {
                    assert(before[j] == values@[j]@);
                }
                lemma_first_position(before, v@, i as int);
            }
            let ghost pre = values@;
            values.remove(i);
            assert(views(values@) =~= before.remove(i as int)) by {
                assert(values@ == pre.remove(i as int));
            }
            return;
        }
        i = i + 1;
    }
    proof {
        if before.contains(v@) {
            let k = choose|k: int| 0 <= k < before.len() && before[k] == v@;
            assert(values@[k]@ == v@);
        }
    }
    let ghost pre = values@;
    values.push(v.to_owned());
    assert(views(values@) =~= before.push(v@)) by {
        assert(values@ == pre.push(values@.last()));
    }
}

/// A selection of one value or of several, each present only when it is
/// bound.
pub struct SelectionValue {
    /// The bound single value.
    pub single: Option<String>,
    /// The bound selection of several values.
    pub multi: Option<Vec<String>>,
}

/// The views of an optional list of strings.
pub open spec fn multi_view(m: Option<Vec<String>>) -> Option<Seq<Seq<char>>> {
    match m {
        Some(v) => Some(views(v@)),
        None => None,
    }
}

/// The view of an optional string.
pub open spec fn single_view(s: Option<String>) -> Option<Seq<char>> {
    match s {
        Some(v) => Some(v@),
        None => None,
    }
}

/// Whether a change is reported with the text `t`.
pub open spec fn reports(changed: Option<String>, t: Seq<char>) -> bool {
    match changed {
        Some(c) => c@ == t,
        None => false,
    }
}

} // verus!
