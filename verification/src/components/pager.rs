//! Paging logic of the pager component: which page buttons are shown, and
//! what each click and key press does to the pager's state.
//!
//! Page indices are 0-based. `skip` is the number of items before the current
//! page; the current page is `skip / page_size` (a page size of 0 counts as 1).
//! The focused button index runs from -2 (first-page button) over -1 (previous
//! page), 0.. (page buttons, relative to the first shown page), to the next-page
//! and last-page buttons; -3 means that nothing was focused yet.

use crate::components::{Density, HorizontalAlign};
use crate::text::{
    decimal, decimal_string, flagged, flagged_string, push_str, replace, replace_all, str_equals,
};
use vstd::prelude::*;

verus! {

/// Event args emitted on every page change.
#[derive(Clone, Debug, PartialEq, Eq, Structural)]
pub struct PagerEventArgs {
    /// Items to skip.
    pub skip: usize,
    /// Items to take — the page size.
    pub top: usize,
    /// 0-based index of the newly selected page.
    pub page_index: usize,
}

/// Data handed to a paging summary template.
#[derive(Clone, Debug, PartialEq, Eq, Structural)]
pub struct PagingInformation {
    /// 1-based current page.
    pub current_page: usize,
    /// Number of pages.
    pub total_pages: usize,
    /// Number of items.
    pub total_count: usize,
}

/// The fixed settings of a pager: item count and how many page buttons show.
#[derive(Clone, Copy, Debug, PartialEq, Eq, Structural)]
pub struct PagerSetup {
    /// Number of items.
    pub count: usize,
    /// How many page number buttons are shown at most.
    pub page_numbers_count: usize,
}

/// The state a pager keeps between events.
#[derive(Clone, Copy, Debug, PartialEq, Eq, Structural)]
pub struct PagerState {
    /// Items before the current page.
    pub skip: usize,
    /// Items per page.
    pub page_size: usize,
    /// Focused button (see the module documentation).
    pub focused_index: i32,
}

/// What an event does: the new state, the page change it reports, if any,
/// and whether the browser's default action is suppressed.
#[derive(Clone, Debug, PartialEq, Eq, Structural)]
pub struct PagerStep {
    /// State after the event.
    pub state: PagerState,
    /// Reported page change.
    pub page_changed: Option<PagerEventArgs>,
    /// Whether the key's default action is prevented.
    pub prevent_default: bool,
}

/// The page size used for division: 0 counts as 1.
pub open spec fn eff_size(ps: int) -> int {
    if ps <= 0 {
        1
    } else {
        ps
    }
}

/// Number of pages: the item count divided by the page size, rounded up, and
/// at least 1.
pub open spec fn page_count(count: int, ps: int) -> int {
    let e = eff_size(ps);
    let n = count / e + if count % e == 0 {
        0int
    } else {
        1int
    };
    if n < 1 {
        1
    } else {
        n
    }
}

/// 0-based index of the page that `skip` falls on.
pub open spec fn current_page(skip: int, ps: int) -> int {
    skip / eff_size(ps)
}

/// How many page buttons are shown.
pub open spec fn visible_pages(count: int, ps: int, pnc: int) -> int {
    if pnc < page_count(count, ps) {
        pnc
    } else {
        page_count(count, ps)
    }
}

/// First shown page: the window of shown pages is centered on the current
/// page as far as it fits between the first and the last page.
pub open spec fn window_start(skip: int, ps: int, count: int, pnc: int) -> int {
    let v = visible_pages(count, ps, pnc);
    let s = current_page(skip, ps) - v / 2;
    let hi = page_count(count, ps) - v;
    if s < 0 {
        0
    } else if s > hi {
        hi
    } else {
        s
    }
}

/// Last shown page.
pub open spec fn window_end(skip: int, ps: int, count: int, pnc: int) -> int {
    window_start(skip, ps, count, pnc) + visible_pages(count, ps, pnc) - 1
}

/// The inputs on which the layout is computed without overflow or panic: at
/// least one page button, a current page no further than half a window past
/// the last page, and a first shown page plus the shown pages (before the
/// window is moved back) that fits in `usize`.
pub open spec fn layout_defined(skip: int, ps: int, count: int, pnc: int) -> bool {
    let v = visible_pages(count, ps, pnc);
    let s = current_page(skip, ps) - v / 2;
    &&& 1 <= pnc
    &&& 0 <= count
    &&& s <= page_count(count, ps) - 1
    &&& s + v <= usize::MAX
}

proof fn lemma_page_count_bounds(count: int, ps: int)
    requires
        0 <= count,
        0 <= ps,
    ensures
        1 <= page_count(count, ps) <= if count < 1 {
            1
        } else {
            count
        },
        count > 0 ==> (page_count(count, ps) - 1) * eff_size(ps) < count,
        count > 0 ==> count <= page_count(count, ps) * eff_size(ps),
{
    let e = eff_size(ps);
    let q = count / e;
    let r = count % e;
    assert(count == q * e + r && 0 <= r < e) by (nonlinear_arith)
        requires
            q == count / e,
            r == count % e,
            e >= 1,
    ;
    assert(q <= count) by (nonlinear_arith)
        requires
            count == q * e + r,
            0 <= r,
            e >= 1,
            count >= 0,
    ;
    assert(q >= 0) by (nonlinear_arith)
        requires
            count == q * e + r,
            r < e,
            e >= 1,
            count >= 0,
    ;
    if r != 0 {
        assert(q + 1 <= count) by (nonlinear_arith)
            requires
                count == q * e + r,
                1 <= r,
                e >= 1,
                q >= 0,
        ;
        assert(q * e < count);
        assert(count <= (q + 1) * e) by (nonlinear_arith)
            requires
                count == q * e + r,
                r < e,
        ;
    } else if count > 0 {
        assert(q >= 1) by (nonlinear_arith)
            requires
                count == q * e,
                count >= 1,
                e >= 1,
        ;
        assert((q - 1) * e < count) by (nonlinear_arith)
            requires
                count == q * e,
                e >= 1,
        ;
    }
}

/// The window of shown pages lies between the first and the last page.
proof fn lemma_window_bounds(skip: int, ps: int, count: int, pnc: int)
    requires
        0 <= skip,
        0 <= ps,
        0 <= count,
        1 <= pnc,
    ensures
        1 <= visible_pages(count, ps, pnc) <= page_count(count, ps),
        0 <= window_start(skip, ps, count, pnc) <= window_end(skip, ps, count, pnc),
        window_end(skip, ps, count, pnc) <= page_count(count, ps) - 1,
        current_page(skip, ps) >= 0,
{
    lemma_page_count_bounds(count, ps);
    let e = eff_size(ps);
    assert(skip / e >= 0) by (nonlinear_arith)
        requires
            skip >= 0,
            e >= 1,
    ;
}

/// Returns `(start_page, end_page, number_of_pages)`, all 0-based.
pub fn calculate_pager(skip: usize, page_size: usize, count: usize, page_numbers_count: usize) -> (r:
    (usize, usize, usize))
    requires
        layout_defined(skip as int, page_size as int, count as int, page_numbers_count as int),
    ensures
        r.0 == window_start(skip as int, page_size as int, count as int, page_numbers_count as int),
        r.1 == window_end(skip as int, page_size as int, count as int, page_numbers_count as int),
        r.2 == page_count(count as int, page_size as int),
{
    proof {
        lemma_page_count_bounds(count as int, page_size as int);
        lemma_window_bounds(skip as int, page_size as int, count as int, page_numbers_count as int);
    }
    let page_size = if page_size < 1 {
        1
    } else {
        page_size
    };
    let n = count / page_size + if count % page_size == 0 {
        0
    } else {
        1
    };
    let number_of_pages = if n < 1 {
        1
    } else {
        n
    };
    let current_page = skip / page_size;
    let visible_pages = if page_numbers_count < number_of_pages {
        page_numbers_count
    } else {
        number_of_pages
    };
    let half = visible_pages / 2;
    let start_page = if current_page > half {
        current_page - half
    } else {
        0
    };
    let end_page = if number_of_pages - 1 < start_page + visible_pages - 1 {
        number_of_pages - 1
    } else {
        start_page + visible_pages - 1
    };
    let shown = end_page - start_page + 1;
    let delta = if page_numbers_count > shown {
        page_numbers_count - shown
    } else {
        0
    };
    let start_page = if start_page > delta {
        start_page - delta
    } else {
        0
    };
    let end_page = if number_of_pages - 1 < start_page + visible_pages - 1 {
        number_of_pages - 1
    } else {
        start_page + visible_pages - 1
    };
    (start_page, end_page, number_of_pages)
}

/// The page change reported when the pager moves to `skip`.
pub open spec fn moved_to(skip: int, ps: int) -> PagerEventArgs {
    PagerEventArgs { skip: skip as usize, top: ps as usize, page_index: (skip / eff_size(ps)) as usize }
}

/// The states that the pager's events keep: a valid setup (at least one page
/// button, fewer than `i32::MAX` of them so that every button has an `i32`
/// focus index, and an item count that leaves room for the page buttons in
/// `usize`) and a `skip` that stays inside the items.
pub open spec fn pager_ok(st: PagerState, setup: PagerSetup) -> bool {
    &&& 1 <= setup.page_numbers_count < i32::MAX
    &&& setup.count + setup.page_numbers_count <= usize::MAX
    &&& (st.skip == 0 || st.skip < setup.count)
}

/// Builds the reported page change.
fn page_change(skip: usize, page_size: usize) -> (r: PagerEventArgs)
    ensures
        r == moved_to(skip as int, page_size as int),
{
    let e = if page_size < 1 {
        1
    } else {
        page_size
    };
    PagerEventArgs { skip, top: page_size, page_index: skip / e }
}

proof fn lemma_layout_defined(st: PagerState, setup: PagerSetup)
    requires
        pager_ok(st, setup),
    ensures
        layout_defined(
            st.skip as int,
            st.page_size as int,
            setup.count as int,
            setup.page_numbers_count as int,
        ),
        current_page(st.skip as int, st.page_size as int) <= page_count(
            setup.count as int,
            st.page_size as int,
        ) - 1,
{
    let e = eff_size(st.page_size as int);
    lemma_page_count_bounds(setup.count as int, st.page_size as int);
    if st.skip > 0 {
        let n = page_count(setup.count as int, st.page_size as int);
        assert(st.skip as int / e <= n - 1) by (nonlinear_arith)
            requires
                st.skip < setup.count,
                setup.count <= n * e,
                e >= 1,
                st.skip >= 0,
        ;
    }
}

/// Whether the pager shows at all: when it is visible, and always-visible is
/// set, or there are more items than fit a page, or page sizes can be chosen.
pub open spec fn pager_shown(
    visible: bool,
    always_visible: bool,
    count: int,
    ps: int,
    has_page_size_options: bool,
) -> bool {
    visible && (always_visible || count > ps || has_page_size_options)
}

/// Whether the pager shows at all.
pub fn pager_visible(
    visible: bool,
    always_visible: bool,
    count: usize,
    page_size: usize,
    has_page_size_options: bool,
) -> (b: bool)
    ensures
        b == pager_shown(visible, always_visible, count as int, page_size as int, has_page_size_options),
{
    visible && (always_visible || count > page_size || has_page_size_options)
}

/// The first-page button: go to page 0 and focus the first page button.
pub open spec fn first_page_step(st: PagerState) -> PagerStep {
    PagerStep {
        state: PagerState { skip: 0, page_size: st.page_size, focused_index: 0 },
        page_changed: if st.skip > 0 {
            Some(moved_to(0, st.page_size as int))
        } else {
            None
        },
        prevent_default: false,
    }
}

/// Handles a click on the first-page button.
pub fn first_page_click(st: PagerState) -> (r: PagerStep)
    ensures
        r == first_page_step(st),
        forall|setup: PagerSetup| pager_ok(st, setup) ==> #[trigger] pager_ok(r.state, setup),
{
    let mut fi: i32 = -2;
    let mut skip = st.skip;
    let mut changed: Option<PagerEventArgs> = None;
    if skip > 0 {
        skip = 0;
        changed = Some(page_change(0, st.page_size));
    }
    if skip == 0 && fi < 0 {
        fi = fi + 2;
    }
    PagerStep {
        state: PagerState { skip, page_size: st.page_size, focused_index: fi },
        page_changed: changed,
        prevent_default: false,
    }
}

/// The skip of the previous page (0 on the first page).
pub open spec fn prev_skip(skip: int, ps: int) -> int {
    if skip >= ps {
        skip - ps
    } else {
        0
    }
}

/// The previous-page button: go back one page size; focus the previous-page
/// button, or the first page button once on page 0.
pub open spec fn prev_page_step(st: PagerState) -> PagerStep {
    let ns = prev_skip(st.skip as int, st.page_size as int);
    PagerStep {
        state: PagerState {
            skip: ns as usize,
            page_size: st.page_size,
            focused_index: if ns == 0 {
                0i32
            } else {
                -1i32
            },
        },
        page_changed: if ns != st.skip {
            Some(moved_to(ns, st.page_size as int))
        } else {
            None
        },
        prevent_default: false,
    }
}

/// Handles a click on the previous-page button.
pub fn prev_page_click(st: PagerState) -> (r: PagerStep)
    ensures
        r == prev_page_step(st),
        forall|setup: PagerSetup| pager_ok(st, setup) ==> #[trigger] pager_ok(r.state, setup),
{
    let mut fi: i32 = -1;
    let ps = st.page_size;
    let s = st.skip;
    let new_skip = if s >= ps {
        s - ps
    } else {
        0
    };
    let mut skip = s;
    let mut changed: Option<PagerEventArgs> = None;
    if new_skip != s {
        skip = new_skip;
        changed = Some(page_change(new_skip, ps));
    }
    if skip == 0 {
        fi = fi + 1;
    }
    PagerStep {
        state: PagerState { skip, page_size: ps, focused_index: fi },
        page_changed: changed,
        prevent_default: false,
    }
}

/// Focus index of the next-page button: one past the shown page buttons.
pub open spec fn next_button_index(st: PagerState, setup: PagerSetup) -> int {
    let e = window_end(
        st.skip as int,
        st.page_size as int,
        setup.count as int,
        setup.page_numbers_count as int,
    );
    if e + 1 < setup.page_numbers_count {
        e + 1
    } else {
        setup.page_numbers_count as int
    }
}

/// The skip of the next page (the last page's when on it).
pub open spec fn next_skip(st: PagerState, setup: PagerSetup) -> int {
    let np = page_count(setup.count as int, st.page_size as int);
    let cur = current_page(st.skip as int, st.page_size as int);
    st.page_size * if cur < np - 1 {
        cur + 1
    } else {
        np - 1
    }
}

/// The next-page button: go forward one page; focus the next-page button, or
/// the last page button once on the last page.
pub open spec fn next_page_step(st: PagerState, setup: PagerSetup) -> PagerStep {
    let np = page_count(setup.count as int, st.page_size as int);
    let ns = next_skip(st, setup);
    let fi = next_button_index(st, setup);
    PagerStep {
        state: PagerState {
            skip: ns as usize,
            page_size: st.page_size,
            focused_index: (if current_page(ns, st.page_size as int) == np - 1 {
                fi - 1
            } else {
                fi
            }) as i32,
        },
        page_changed: if ns != st.skip {
            Some(moved_to(ns, st.page_size as int))
        } else {
            None
        },
        prevent_default: false,
    }
}

proof fn lemma_skip_stays_inside(ps: int, page: int, np: int, count: int)
    requires
        0 <= page <= np - 1,
        np == page_count(count, ps),
        0 <= count,
        0 <= ps,
    ensures
        0 <= ps * page,
        ps * page == 0 || ps * page < count,
{
    lemma_page_count_bounds(count, ps);
    let e = eff_size(ps);
    assert(0 <= ps * page) by (nonlinear_arith)
        requires
            0 <= ps,
            0 <= page,
    ;
    if ps == 0 || page == 0 {
        assert(ps * page == 0) by (nonlinear_arith)
            requires
                ps == 0 || page == 0,
        ;
    }
    if ps > 0 && page > 0 {
        assert(count > 0);
        assert(ps * page < count) by (nonlinear_arith)
            requires
                0 < ps,
                page <= np - 1,
                (np - 1) * ps < count,
        ;
    }
}

/// Handles a click on the next-page button.
pub fn next_page_click(st: PagerState, setup: PagerSetup) -> (r: PagerStep)
    requires
        pager_ok(st, setup),
    ensures
        r == next_page_step(st, setup),
        pager_ok(r.state, setup),
{
    proof {
        lemma_layout_defined(st, setup);
        lemma_window_bounds(
            st.skip as int,
            st.page_size as int,
            setup.count as int,
            setup.page_numbers_count as int,
        );
        lemma_page_count_bounds(setup.count as int, st.page_size as int);
    }
    let (_, end_page, np) = calculate_pager(
        st.skip,
        st.page_size,
        setup.count,
        setup.page_numbers_count,
    );
    let fi0: i32 = if end_page + 1 < setup.page_numbers_count {
        (end_page + 1) as i32
    } else {
        setup.page_numbers_count as i32
    };
    let ps = st.page_size;
    let s = st.skip;
    let e = if ps < 1 {
        1
    } else {
        ps
    };
    let current = s / e;
    let target = if current < np - 1 {
        current + 1
    } else {
        np - 1
    };
    proof {
        lemma_skip_stays_inside(ps as int, target as int, np as int, setup.count as int);
    }
    let new_skip = ps * target;
    let mut skip = s;
    let mut changed: Option<PagerEventArgs> = None;
    if new_skip != s {
        skip = new_skip;
        changed = Some(page_change(new_skip, ps));
    }
    let mut fi = fi0;
    if skip / e == np - 1 {
        fi = fi - 1;
    }
    PagerStep {
        state: PagerState { skip, page_size: ps, focused_index: fi },
        page_changed: changed,
        prevent_default: false,
    }
}

/// The last-page button: go to the last page; focus the last-page button, or
/// the last page button once on the last page.
pub open spec fn last_page_step(st: PagerState, setup: PagerSetup) -> PagerStep {
    let np = page_count(setup.count as int, st.page_size as int);
    let ls = st.page_size * (np - 1);
    let fi = next_button_index(st, setup) + 1;
    PagerStep {
        state: PagerState {
            skip: ls as usize,
            page_size: st.page_size,
            focused_index: (if current_page(ls, st.page_size as int) == np - 1 {
                fi - 2
            } else {
                fi
            }) as i32,
        },
        page_changed: if ls != st.skip {
            Some(moved_to(ls, st.page_size as int))
        } else {
            None
        },
        prevent_default: false,
    }
}

/// Handles a click on the last-page button.
pub fn last_page_click(st: PagerState, setup: PagerSetup) -> (r: PagerStep)
    requires
        pager_ok(st, setup),
    ensures
        r == last_page_step(st, setup),
        pager_ok(r.state, setup),
{
    proof {
        lemma_layout_defined(st, setup);
        lemma_window_bounds(
            st.skip as int,
            st.page_size as int,
            setup.count as int,
            setup.page_numbers_count as int,
        );
        lemma_page_count_bounds(setup.count as int, st.page_size as int);
    }
    let (_, end_page, np) = calculate_pager(
        st.skip,
        st.page_size,
        setup.count,
        setup.page_numbers_count,
    );
    let fi0: i32 = if end_page + 1 < setup.page_numbers_count {
        (end_page + 1) as i32
    } else {
        setup.page_numbers_count as i32
    };
    let mut fi = fi0 + 1;
    let ps = st.page_size;
    proof {
        lemma_skip_stays_inside(ps as int, np - 1, np as int, setup.count as int);
    }
    let last_skip = ps * (np - 1);
    let mut skip = st.skip;
    let mut changed: Option<PagerEventArgs> = None;
    if skip != last_skip {
        skip = last_skip;
        changed = Some(page_change(last_skip, ps));
    }
    let e = if ps < 1 {
        1
    } else {
        ps
    };
    if skip / e == np - 1 {
        fi = fi - 2;
    }
    PagerStep {
        state: PagerState { skip, page_size: ps, focused_index: fi },
        page_changed: changed,
        prevent_default: false,
    }
}

/// A page number button: focus it, and go to its page unless already there.
pub open spec fn page_button_step(st: PagerState, page: int, fi: i32) -> PagerStep {
    let moves = current_page(st.skip as int, st.page_size as int) != page;
    let ns = page * st.page_size;
    PagerStep {
        state: PagerState {
            skip: if moves {
                ns as usize
            } else {
                st.skip
            },
            page_size: st.page_size,
            focused_index: fi,
        },
        page_changed: if moves {
            Some(moved_to(ns, st.page_size as int))
        } else {
            None
        },
        prevent_default: false,
    }
}

/// Handles a click on the button of page `page`, whose focus index is `fi`.
pub fn page_button_click(st: PagerState, setup: PagerSetup, page: usize, fi: i32) -> (r: PagerStep)
    requires
        page * st.page_size <= usize::MAX,
    ensures
        r == page_button_step(st, page as int, fi),
        pager_ok(st, setup) && page < page_count(setup.count as int, st.page_size as int)
            ==> pager_ok(r.state, setup),
{
    proof {
        if page < page_count(setup.count as int, st.page_size as int) {
            lemma_skip_stays_inside(
                st.page_size as int,
                page as int,
                page_count(setup.count as int, st.page_size as int),
                setup.count as int,
            );
        }
        assert(page * st.page_size == st.page_size * page) by (nonlinear_arith);
    }
    let ps = st.page_size;
    let e = if ps < 1 {
        1
    } else {
        ps
    };
    let current = st.skip / e;
    if current != page {
        let ns = page * ps;
        PagerStep {
            state: PagerState { skip: ns, page_size: ps, focused_index: fi },
            page_changed: Some(page_change(ns, ps)),
            prevent_default: false,
        }
    } else {
        PagerStep {
            state: PagerState { skip: st.skip, page_size: ps, focused_index: fi },
            page_changed: None,
            prevent_default: false,
        }
    }
}

/// The reload button reports the current page again.
pub fn reload_click(st: PagerState) -> (r: PagerEventArgs)
    ensures
        r == moved_to(st.skip as int, st.page_size as int),
{
    page_change(st.skip, st.page_size)
}

/// Keeps the focus off the first/previous buttons on the first page and off
/// the next/last buttons on the last page.
pub open spec fn clamp_focus(fi: int, cur: int, np: int, limit: int) -> int {
    if cur == 0 && fi < 0 {
        0
    } else if np > 0 && cur == np - 1 && fi > limit {
        limit
    } else {
        fi
    }
}

/// Focusing the pager: the initial focus goes to the first page button.
pub open spec fn focus_index(st: PagerState, setup: PagerSetup) -> int {
    let np = page_count(setup.count as int, st.page_size as int);
    clamp_focus(
        if st.focused_index == -3 {
            0
        } else {
            st.focused_index as int
        },
        current_page(st.skip as int, st.page_size as int),
        np,
        np - 1,
    )
}

/// Handles the pager receiving focus.
pub fn pager_focus(st: PagerState, setup: PagerSetup) -> (r: PagerState)
    requires
        pager_ok(st, setup),
    ensures
        r == (PagerState { focused_index: focus_index(st, setup) as i32, ..st }),
        pager_ok(r, setup),
{
    proof {
        lemma_page_count_bounds(setup.count as int, st.page_size as int);
        lemma_layout_defined(st, setup);
    }
    let fi = st.focused_index;
    let mut new_fi = if fi == -3 {
        0
    } else {
        fi
    };
    let ps = st.page_size;
    let e = if ps < 1 {
        1
    } else {
        ps
    };
    let current = st.skip / e;
    let (_, _, np) = calculate_pager(st.skip, ps, setup.count, setup.page_numbers_count);
    if current == 0 && new_fi < 0 {
        new_fi = 0;
    } else if np > 0 && current == np - 1 && new_fi >= 0 && new_fi as usize > np - 1 {
        new_fi = (np - 1) as i32;
    }
    PagerState { skip: st.skip, page_size: ps, focused_index: new_fi }
}

/// Number of page buttons shown.
pub open spec fn displayed_pages(st: PagerState, setup: PagerSetup) -> int {
    let e = window_end(
        st.skip as int,
        st.page_size as int,
        setup.count as int,
        setup.page_numbers_count as int,
    );
    if e + 1 < setup.page_numbers_count {
        e + 1
    } else {
        setup.page_numbers_count as int
    }
}

/// `fi + d` saturated to the `i32` range.
pub open spec fn saturating_add_i32(fi: int, d: int) -> int {
    if fi + d > i32::MAX {
        i32::MAX as int
    } else if fi + d < i32::MIN {
        i32::MIN as int
    } else {
        fi + d
    }
}

/// The skip that activating the focused button moves to, if it moves.
pub open spec fn activated_skip(st: PagerState, setup: PagerSetup) -> Option<int> {
    let fi = st.focused_index as int;
    let ps = st.page_size as int;
    let s = st.skip as int;
    let cur = current_page(s, ps);
    let np = page_count(setup.count as int, ps);
    let ndp = displayed_pages(st, setup);
    if fi == -2 {
        if s > 0 {
            Some(0)
        } else {
            None
        }
    } else if fi == -1 {
        if prev_skip(s, ps) != s {
            Some(prev_skip(s, ps))
        } else {
            None
        }
    } else if fi == ndp {
        if next_skip(st, setup) != s {
            Some(next_skip(st, setup))
        } else {
            None
        }
    } else if fi == ndp + 1 {
        if ps * (np - 1) != s {
            Some(ps * (np - 1))
        } else {
            None
        }
    } else if fi >= 0 {
        let page = window_start(s, ps, setup.count as int, setup.page_numbers_count as int) + fi;
        if cur != page {
            Some(page * ps)
        } else {
            None
        }
    } else {
        None
    }
}

/// A key press on the pager: the arrow keys move the focus between the
/// buttons, Space and Enter activate the focused button; other keys do
/// nothing.
pub open spec fn key_step(st: PagerState, setup: PagerSetup, key: Seq<char>) -> PagerStep {
    let ps = st.page_size as int;
    let cur = current_page(st.skip as int, ps);
    let np = page_count(setup.count as int, ps);
    let ndp = displayed_pages(st, setup);
    if key == "ArrowLeft"@ || key == "ArrowRight"@ {
        let d: int = if key == "ArrowLeft"@ {
            -1
        } else {
            1
        };
        let t = saturating_add_i32(st.focused_index as int, d);
        let c = if t < -2 {
            -2
        } else if t > ndp + 1 {
            ndp + 1
        } else {
            t
        };
        PagerStep {
            state: PagerState { focused_index: clamp_focus(c, cur, np, ndp - 1) as i32, ..st },
            page_changed: None,
            prevent_default: true,
        }
    } else if key == "Space"@ || key == "Enter"@ {
        let moved = activated_skip(st, setup);
        let ns = match moved {
            Some(x) => x,
            None => st.skip as int,
        };
        PagerStep {
            state: PagerState {
                skip: ns as usize,
                page_size: st.page_size,
                focused_index: clamp_focus(
                    st.focused_index as int,
                    current_page(ns, ps),
                    np,
                    ndp - 1,
                ) as i32,
            },
            page_changed: match moved {
                Some(x) => Some(moved_to(x, ps)),
                None => None,
            },
            prevent_default: true,
        }
    } else {
        PagerStep { state: st, page_changed: None, prevent_default: false }
    }
}

/// The key presses that run without overflow: activating a page button whose
/// page, and page times the page size, fit in `usize`.
pub open spec fn key_defined(st: PagerState, setup: PagerSetup) -> bool {
    let fi = st.focused_index as int;
    let ndp = displayed_pages(st, setup);
    let page = window_start(
        st.skip as int,
        st.page_size as int,
        setup.count as int,
        setup.page_numbers_count as int,
    ) + fi;
    (fi >= 0 && fi != ndp && fi != ndp + 1) ==> page <= usize::MAX && page * st.page_size
        <= usize::MAX
}

/// Handles a key press on the pager; `key` is the event's code, or its key
/// when the code is empty.
pub fn pager_key_down(st: PagerState, setup: PagerSetup, key: &str) -> (r: PagerStep)
    requires
        pager_ok(st, setup),
        key_defined(st, setup),
    ensures
        r == key_step(st, setup, key@),
        st.focused_index <= displayed_pages(st, setup) + 1 ==> pager_ok(r.state, setup),
{
    proof {
        lemma_layout_defined(st, setup);
        lemma_window_bounds(
            st.skip as int,
            st.page_size as int,
            setup.count as int,
            setup.page_numbers_count as int,
        );
        lemma_page_count_bounds(setup.count as int, st.page_size as int);
        reveal_strlit("ArrowLeft");
        reveal_strlit("ArrowRight");
        reveal_strlit("Space");
        reveal_strlit("Enter");
    }
    let ps = st.page_size;
    let e = if ps < 1 {
        1
    } else {
        ps
    };
    let (start_page, end_page, np) = calculate_pager(
        st.skip,
        ps,
        setup.count,
        setup.page_numbers_count,
    );
    let ndp: i32 = if end_page + 1 < setup.page_numbers_count {
        (end_page + 1) as i32
    } else {
        setup.page_numbers_count as i32
    };
    let current = st.skip / e;
    let left = str_equals(key, "ArrowLeft");
    if left || str_equals(key, "ArrowRight") {
        let dir: i32 = if left {
            -1
        } else {
            1
        };
        let fi = st.focused_index;
        let t: i32 = if dir < 0 {
            if fi == i32::MIN {
                fi
            } else {
                fi - 1
            }
        } else {
            if fi == i32::MAX {
                fi
            } else {
                fi + 1
            }
        };
        let mut new_fi = if t < -2 {
            -2
        } else if t > ndp + 1 {
            ndp + 1
        } else {
            t
        };
        if current == 0 && new_fi < 0 {
            new_fi = 0;
        } else if np > 0 && current == np - 1 && new_fi > ndp - 1 {
            new_fi = ndp - 1;
        }
        return PagerStep {
            state: PagerState { skip: st.skip, page_size: ps, focused_index: new_fi },
            page_changed: None,
            prevent_default: true,
        };
    }
    if str_equals(key, "Space") || str_equals(key, "Enter") {
        let fi = st.focused_index;
        let s = st.skip;
        let mut moved: Option<usize> = None;
        if fi == -2 {
            if s > 0 {
                moved = Some(0);
            }
        } else if fi == -1 {
            let ns = if s >= ps {
                s - ps
            } else {
                0
            };
            if ns != s {
                moved = Some(ns);
            }
        } else if fi == ndp {
            let target = if current < np - 1 {
                current + 1
            } else {
                np - 1
            };
            proof {
                lemma_skip_stays_inside(ps as int, target as int, np as int, setup.count as int);
            }
            let ns = ps * target;
            if ns != s {
                moved = Some(ns);
            }
        } else if fi == ndp + 1 {
            proof {
                lemma_skip_stays_inside(ps as int, np - 1, np as int, setup.count as int);
            }
            let ls = ps * (np - 1);
            if s != ls {
                moved = Some(ls);
            }
        } else if fi >= 0 {
            let page = start_page + fi as usize;
            proof {
                if page < np {
                    lemma_skip_stays_inside(ps as int, page as int, np as int, setup.count as int);
                }
                assert(page * ps == ps * page) by (nonlinear_arith);
            }
            if current != page {
                moved = Some(page * ps);
            }
        }
        let ns = match moved {
            Some(x) => x,
            None => s,
        };
        let current3 = ns / e;
        let mut fi2 = fi;
        if current3 == 0 && fi2 < 0 {
            fi2 = 0;
        } else if np > 0 && current3 == np - 1 && fi2 > ndp - 1 {
            fi2 = ndp - 1;
        }
        let changed = match moved {
            Some(x) => Some(page_change(x, ps)),
            None => None,
        };
        return PagerStep {
            state: PagerState { skip: ns, page_size: ps, focused_index: fi2 },
            page_changed: changed,
            prevent_default: true,
        };
    }
    PagerStep { state: st, page_changed: None, prevent_default: false }
}

/// Choosing a new page size: the last page stays the last page, the first page
/// stays the first, and any other page moves to the page that holds its first
/// item under the new size.
pub open spec fn page_size_step(st: PagerState, setup: PagerSetup, new_ps: int) -> PagerStep {
    let ps = st.page_size as int;
    let s = st.skip as int;
    let cur = current_page(s, ps);
    let np = page_count(setup.count as int, ps);
    let moved: Option<int> = if np > 1 && cur == np - 1 {
        Some(new_ps * (page_count(setup.count as int, new_ps) - 1))
    } else if cur != 0 {
        Some((s / eff_size(new_ps)) * new_ps)
    } else {
        None
    };
    PagerStep {
        state: PagerState {
            skip: match moved {
                Some(x) => x as usize,
                None => st.skip,
            },
            page_size: new_ps as usize,
            focused_index: st.focused_index,
        },
        page_changed: match moved {
            Some(x) => Some(moved_to(x, new_ps)),
            None => None,
        },
        prevent_default: false,
    }
}

/// Handles the choice of a new page size.
pub fn page_size_changed(st: PagerState, setup: PagerSetup, new_page_size: usize) -> (r: PagerStep)
    requires
        pager_ok(st, setup),
    ensures
        r == page_size_step(st, setup, new_page_size as int),
        pager_ok(r.state, setup),
{
    proof {
        lemma_layout_defined(st, setup);
        lemma_page_count_bounds(setup.count as int, st.page_size as int);
        lemma_page_count_bounds(setup.count as int, new_page_size as int);
    }
    let ps = st.page_size;
    let e = if ps < 1 {
        1
    } else {
        ps
    };
    let current = st.skip / e;
    let (_, _, np) = calculate_pager(st.skip, ps, setup.count, setup.page_numbers_count);
    let is_first_page = current == 0;
    let is_last_page = np > 1 && current == np - 1;
    let prev = st.skip;
    let new_e = if new_page_size < 1 {
        1
    } else {
        new_page_size
    };
    let ghost ns_state = PagerState { skip: st.skip, page_size: new_page_size, focused_index: 0 };
    proof {
        lemma_layout_defined(ns_state, setup);
    }
    if is_last_page {
        let (_, _, np2) = calculate_pager(
            st.skip,
            new_page_size,
            setup.count,
            setup.page_numbers_count,
        );
        proof {
            lemma_skip_stays_inside(
                new_page_size as int,
                np2 - 1,
                np2 as int,
                setup.count as int,
            );
        }
        let last_skip = new_page_size * (np2 - 1);
        PagerStep {
            state: PagerState {
                skip: last_skip,
                page_size: new_page_size,
                focused_index: st.focused_index,
            },
            page_changed: Some(page_change(last_skip, new_page_size)),
            prevent_default: false,
        }
    } else if !is_first_page {
        let new_page = prev / new_e;
        proof {
            assert(new_page * new_page_size <= prev) by (nonlinear_arith)
                requires
                    new_page == prev / new_e,
                    new_e >= 1,
                    new_page_size <= new_e,
                    prev >= 0,
            ;
            assert(new_page * new_page_size >= 0) by (nonlinear_arith)
                requires
                    new_page >= 0,
                    new_page_size >= 0,
            ;
        }
        let ns = new_page * new_page_size;
        PagerStep {
            state: PagerState { skip: ns, page_size: new_page_size, focused_index: st.focused_index },
            page_changed: Some(page_change(ns, new_page_size)),
            prevent_default: false,
        }
    } else {
        PagerStep {
            state: PagerState {
                skip: st.skip,
                page_size: new_page_size,
                focused_index: st.focused_index,
            },
            page_changed: None,
            prevent_default: false,
        }
    }
}

/// Reads a page size chosen in the page-size drop-down (`str::parse::<usize>`).
pub fn parse_page_size(value: &str) -> (r: Option<usize>)
    ensures
        match r {
            Some(v) => crate::text::parse_int(value@, 0, usize::MAX as int) == Some(v as int),
            None => crate::text::parse_int(value@, 0, usize::MAX as int) is None,
        },
{
    match crate::text::parse_unsigned(value, usize::MAX as u64) {
        Some(v) => Some(v as usize),
        None => None,
    }
}

/// The pager's root class: the fixed classes, the density class, the
/// alignment class, and the caller's class when it is not empty.
pub open spec fn pager_class(density: Density, align: HorizontalAlign, caller: Seq<char>) -> Seq<
    char,
> {
    "rz-pager rz-unselectable-text rz-helper-clearfix"@ + (if density == Density::Compact {
        " rz-density-compact"@
    } else {
        Seq::empty()
    }) + " "@ + align_class(align) + (if caller.len() > 0 {
        " "@ + caller
    } else {
        Seq::empty()
    })
}

/// The alignment class of the pager's buttons.
pub open spec fn align_class(align: HorizontalAlign) -> Seq<char> {
    match align {
        HorizontalAlign::Justify => "rz-horizontal-align-justify"@,
        HorizontalAlign::Left => "rz-horizontal-align-left"@,
        HorizontalAlign::Center => "rz-horizontal-align-center"@,
        HorizontalAlign::Right => "rz-horizontal-align-right"@,
    }
}

/// The alignment class of the pager's buttons.
pub fn horizontal_align_class(align: HorizontalAlign) -> (s: &'static str)
    ensures
        s@ == align_class(align),
{
    match align {
        HorizontalAlign::Justify => "rz-horizontal-align-justify",
        HorizontalAlign::Left => "rz-horizontal-align-left",
        HorizontalAlign::Center => "rz-horizontal-align-center",
        HorizontalAlign::Right => "rz-horizontal-align-right",
    }
}

/// Builds the pager's root class.
pub fn pager_css_class(density: Density, align: HorizontalAlign, caller: &str) -> (s: String)
    ensures
        s@ == pager_class(density, align, caller@),
{
    let mut s = String::new();
    push_str(&mut s, "rz-pager rz-unselectable-text rz-helper-clearfix");
    if density == Density::Compact {
        push_str(&mut s, " rz-density-compact");
    }
    push_str(&mut s, " ");
    push_str(&mut s, horizontal_align_class(align));
    if !caller.is_empty() {
        push_str(&mut s, " ");
        push_str(&mut s, caller);
    }
    proof {
        assert(s@ =~= pager_class(density, align, caller@));
    }
    s
}

/// Whether the pager is on its first page.
pub open spec fn on_first_page(st: PagerState) -> bool {
    current_page(st.skip as int, st.page_size as int) == 0
}

/// Whether the pager is on its last page.
pub open spec fn on_last_page(st: PagerState, setup: PagerSetup) -> bool {
    current_page(st.skip as int, st.page_size as int) >= page_count(
        setup.count as int,
        st.page_size as int,
    ) - 1
}

/// Class of the first-page button: disabled on the first page, focused at
/// index -2.
pub fn first_button_class(st: PagerState) -> (s: String)
    ensures
        s@ == flagged(
            "rz-pager-first rz-pager-element"@,
            "rz-state-disabled"@,
            on_first_page(st),
            "rz-state-focused"@,
            st.focused_index == -2,
        ),
{
    let e = if st.page_size < 1 {
        1
    } else {
        st.page_size
    };
    flagged_string(
        "rz-pager-first rz-pager-element",
        "rz-state-disabled",
        st.skip / e == 0,
        "rz-state-focused",
        st.focused_index == -2,
    )
}

/// Class of the previous-page button: disabled on the first page, focused at
/// index -1.
pub fn prev_button_class(st: PagerState) -> (s: String)
    ensures
        s@ == flagged(
            "rz-pager-prev rz-pager-element"@,
            "rz-state-disabled"@,
            on_first_page(st),
            "rz-state-focused"@,
            st.focused_index == -1,
        ),
{
    let e = if st.page_size < 1 {
        1
    } else {
        st.page_size
    };
    flagged_string(
        "rz-pager-prev rz-pager-element",
        "rz-state-disabled",
        st.skip / e == 0,
        "rz-state-focused",
        st.focused_index == -1,
    )
}

/// Class of the next-page button: disabled on the last page, focused at its
/// index.
pub fn next_button_class(st: PagerState, setup: PagerSetup) -> (s: String)
    requires
        pager_ok(st, setup),
    ensures
        s@ == flagged(
            "rz-pager-next rz-pager-element"@,
            "rz-state-disabled"@,
            on_last_page(st, setup),
            "rz-state-focused"@,
            st.focused_index == next_button_index(st, setup),
        ),
{
    nav_end_button_class(st, setup, "rz-pager-next rz-pager-element", 0)
}

/// Class of the last-page button: disabled on the last page, focused at its
/// index.
pub fn last_button_class(st: PagerState, setup: PagerSetup) -> (s: String)
    requires
        pager_ok(st, setup),
    ensures
        s@ == flagged(
            "rz-pager-last rz-pager-element"@,
            "rz-state-disabled"@,
            on_last_page(st, setup),
            "rz-state-focused"@,
            st.focused_index == next_button_index(st, setup) + 1,
        ),
{
    nav_end_button_class(st, setup, "rz-pager-last rz-pager-element", 1)
}

fn nav_end_button_class(st: PagerState, setup: PagerSetup, base: &str, offset: i32) -> (s: String)
    requires
        pager_ok(st, setup),
        0 <= offset <= 1,
    ensures
        s@ == flagged(
            base@,
            "rz-state-disabled"@,
            on_last_page(st, setup),
            "rz-state-focused"@,
            st.focused_index == next_button_index(st, setup) + offset,
        ),
{
    proof {
        lemma_layout_defined(st, setup);
        lemma_window_bounds(
            st.skip as int,
            st.page_size as int,
            setup.count as int,
            setup.page_numbers_count as int,
        );
        lemma_page_count_bounds(setup.count as int, st.page_size as int);
    }
    let e = if st.page_size < 1 {
        1
    } else {
        st.page_size
    };
    let (_, end_page, np) = calculate_pager(
        st.skip,
        st.page_size,
        setup.count,
        setup.page_numbers_count,
    );
    let current = st.skip / e;
    let is_last = np == 0 || current >= np - 1;
    let fi: i32 = if end_page + 1 < setup.page_numbers_count {
        (end_page + 1) as i32
    } else {
        setup.page_numbers_count as i32
    };
    flagged_string(base, "rz-state-disabled", is_last, "rz-state-focused", st.focused_index == fi + offset)
}

/// Class of the button of page `page`: active on the current page, focused
/// when the focus index points at it.
pub fn page_button_class(st: PagerState, setup: PagerSetup, page: usize) -> (s: String)
    requires
        pager_ok(st, setup),
    ensures
        s@ == flagged(
            "rz-pager-page rz-pager-element"@,
            "rz-state-active"@,
            page == current_page(st.skip as int, st.page_size as int),
            "rz-state-focused"@,
            st.focused_index >= 0 && window_start(
                st.skip as int,
                st.page_size as int,
                setup.count as int,
                setup.page_numbers_count as int,
            ) + st.focused_index == page,
        ),
{
    proof {
        lemma_layout_defined(st, setup);
        lemma_window_bounds(
            st.skip as int,
            st.page_size as int,
            setup.count as int,
            setup.page_numbers_count as int,
        );
    }
    let e = if st.page_size < 1 {
        1
    } else {
        st.page_size
    };
    let (start_page, _, _) = calculate_pager(
        st.skip,
        st.page_size,
        setup.count,
        setup.page_numbers_count,
    );
    let fi = st.focused_index;
    let focused = fi >= 0 && page >= start_page && page - start_page == fi as usize;
    flagged_string(
        "rz-pager-page rz-pager-element",
        "rz-state-active",
        page == st.skip / e,
        "rz-state-focused",
        focused,
    )
}

/// The pages whose buttons are shown, in order.
pub fn shown_pages(st: PagerState, setup: PagerSetup) -> (v: Vec<usize>)
    requires
        pager_ok(st, setup),
    ensures
        v@.len() == displayed_pages(st, setup),
        forall|i: int|
            0 <= i < v@.len() ==> #[trigger] v@[i] == window_start(
                st.skip as int,
                st.page_size as int,
                setup.count as int,
                setup.page_numbers_count as int,
            ) + i,
{
    proof {
        lemma_layout_defined(st, setup);
        lemma_window_bounds(
            st.skip as int,
            st.page_size as int,
            setup.count as int,
            setup.page_numbers_count as int,
        );
    }
    proof {
        lemma_page_count_bounds(setup.count as int, st.page_size as int);
    }
    let (start_page, end_page, _) = calculate_pager(
        st.skip,
        st.page_size,
        setup.count,
        setup.page_numbers_count,
    );
    let n = if end_page + 1 < setup.page_numbers_count {
        end_page + 1
    } else {
        setup.page_numbers_count
    };
    assert(start_page + n <= usize::MAX);
    let mut v: Vec<usize> = Vec::new();
    let mut i: usize = 0;
    while i < n
        invariant
            v@.len() == i,
            i <= n,
            n <= end_page + 1,
            start_page + n <= usize::MAX,
            forall|j: int| 0 <= j < i ==> #[trigger] v@[j] == start_page + j,
        decreases n - i,
    {
        v.push(start_page + i);
        i = i + 1;
    }
    v
}

/// `format` with `{0}`, `{1}` and `{2}` replaced by the 1-based current page,
/// the number of pages and the item count.
pub open spec fn summary_text(format: Seq<char>, page: nat, pages: nat, count: nat) -> Seq<char> {
    replace_all(
        replace_all(replace_all(format, "{0}"@, decimal(page)), "{1}"@, decimal(pages)),
        "{2}"@,
        decimal(count),
    )
}

/// The paging summary: the information for a summary template, and the text
/// of the summary format.
pub fn paging_summary(st: PagerState, setup: PagerSetup, format: &str) -> (r: (
    PagingInformation,
    String,
))
    requires
        pager_ok(st, setup),
    ensures
        r.0.current_page == current_page(st.skip as int, st.page_size as int) + 1,
        r.0.total_pages == page_count(setup.count as int, st.page_size as int),
        r.0.total_count == setup.count,
        r.1@ == summary_text(
            format@,
            r.0.current_page as nat,
            r.0.total_pages as nat,
            r.0.total_count as nat,
        ),
{
    proof {
        lemma_layout_defined(st, setup);
        lemma_page_count_bounds(setup.count as int, st.page_size as int);
        reveal_strlit("{0}");
        reveal_strlit("{1}");
        reveal_strlit("{2}");
    }
    let e = if st.page_size < 1 {
        1
    } else {
        st.page_size
    };
    let (_, _, np) = calculate_pager(st.skip, st.page_size, setup.count, setup.page_numbers_count);
    let cp = st.skip / e + 1;
    let a = replace(format, "{0}", decimal_string(cp as u64).as_str());
    let b = replace(a.as_str(), "{1}", decimal_string(np as u64).as_str());
    let c = replace(b.as_str(), "{2}", decimal_string(setup.count as u64).as_str());
    (PagingInformation { current_page: cp, total_pages: np, total_count: setup.count }, c)
}

/// `format` with `{0}` replaced by the 1-based number of page `page` (the
/// title and aria label of a page button).
pub fn page_label(format: &str, page: usize) -> (s: String)
    requires
        page < usize::MAX,
    ensures
        s@ == replace_all(format@, "{0}"@, decimal((page + 1) as nat)),
{
    proof {
        reveal_strlit("{0}");
    }
    replace(format, "{0}", decimal_string((page + 1) as u64).as_str())
}

/// The current page's button is always shown: the window of page buttons holds
/// the current page, lies between the first and the last page, and has
/// `min(page_numbers_count, pages)` buttons.
pub proof fn lemma_window_shows_current(st: PagerState, setup: PagerSetup)
    requires
        pager_ok(st, setup),
    ensures
        ({
            let (s, ps, c, n) = (
                st.skip as int,
                st.page_size as int,
                setup.count as int,
                setup.page_numbers_count as int,
            );
            &&& 0 <= window_start(s, ps, c, n) <= current_page(s, ps) <= window_end(s, ps, c, n)
            &&& window_end(s, ps, c, n) <= page_count(c, ps) - 1
            &&& window_end(s, ps, c, n) - window_start(s, ps, c, n) + 1 == visible_pages(c, ps, n)
            &&& visible_pages(c, ps, n) == if n < page_count(c, ps) {
                n
            } else {
                page_count(c, ps)
            }
        }),
{
    lemma_layout_defined(st, setup);
    lemma_window_bounds(
        st.skip as int,
        st.page_size as int,
        setup.count as int,
        setup.page_numbers_count as int,
    );
}

/// Whether a step's reported page change describes the step's new state.
pub open spec fn reports_new_state(step: PagerStep) -> bool {
    step.page_changed matches Some(a) ==> a == moved_to(
        step.state.skip as int,
        step.state.page_size as int,
    )
}

/// Every page change that the pager reports names the page it moved to: the
/// reported skip, page size and page index are those of the new state.
pub proof fn lemma_reports_new_state(
    st: PagerState,
    setup: PagerSetup,
    key: Seq<char>,
    new_ps: usize,
    page: usize,
    fi: i32,
)
    requires
        pager_ok(st, setup),
        key_defined(st, setup),
        st.focused_index <= displayed_pages(st, setup) + 1,
        page * st.page_size <= usize::MAX,
    ensures
        reports_new_state(first_page_step(st)),
        reports_new_state(prev_page_step(st)),
        reports_new_state(next_page_step(st, setup)),
        reports_new_state(last_page_step(st, setup)),
        reports_new_state(page_button_step(st, page as int, fi)),
        reports_new_state(key_step(st, setup, key)),
        reports_new_state(page_size_step(st, setup, new_ps as int)),
{
    lemma_layout_defined(st, setup);
    lemma_window_bounds(
        st.skip as int,
        st.page_size as int,
        setup.count as int,
        setup.page_numbers_count as int,
    );
    let np = page_count(setup.count as int, st.page_size as int);
    let cur = current_page(st.skip as int, st.page_size as int);
    lemma_page_count_bounds(setup.count as int, st.page_size as int);
    lemma_page_count_bounds(setup.count as int, new_ps as int);
    lemma_skip_stays_inside(st.page_size as int, np - 1, np, setup.count as int);
    let target = if cur < np - 1 {
        cur + 1
    } else {
        np - 1
    };
    lemma_skip_stays_inside(st.page_size as int, target, np, setup.count as int);
    let np2 = page_count(setup.count as int, new_ps as int);
    lemma_skip_stays_inside(new_ps as int, np2 - 1, np2, setup.count as int);
    let e2 = eff_size(new_ps as int);
    assert(((st.skip as int) / e2) * new_ps <= st.skip) by (nonlinear_arith)
        requires
            e2 >= 1,
            new_ps <= e2,
            st.skip >= 0,
    ;
    assert(((st.skip as int) / e2) * new_ps >= 0) by (nonlinear_arith)
        requires
            e2 >= 1,
            new_ps >= 0,
            st.skip >= 0,
    ;
    let start = window_start(
        st.skip as int,
        st.page_size as int,
        setup.count as int,
        setup.page_numbers_count as int,
    );
    if st.focused_index >= 0 {
        assert((start + st.focused_index) * st.page_size >= 0) by (nonlinear_arith)
            requires
                start >= 0,
                st.focused_index >= 0,
                st.page_size >= 0,
        ;
    }
    assert(page * st.page_size >= 0) by (nonlinear_arith);
}

/// Whether the pager stands on a page boundary: a page size of at least one
/// and a skip that is a whole number of pages.
pub open spec fn page_aligned(st: PagerState) -> bool {
    st.page_size >= 1 && st.skip % st.page_size == 0
}

/// Whether a page change describes a whole page: its `top` is the page size,
/// its page index is `skip / top`, and its skip is `page_index * top`.
pub open spec fn whole_page(a: PagerEventArgs) -> bool {
    &&& a.top >= 1
    &&& a.page_index == a.skip / a.top
    &&& a.skip == a.page_index * a.top
}

/// Whether a step leaves the pager on a page boundary and reports, if
/// anything, a whole page of the new page size.
pub open spec fn keeps_whole_pages(step: PagerStep) -> bool {
    &&& page_aligned(step.state)
    &&& step.page_changed matches Some(a) ==> whole_page(a) && a.top == step.state.page_size
}

proof fn lemma_aligned_reports_whole_page(step: PagerStep)
    requires
        reports_new_state(step),
        page_aligned(step.state),
    ensures
        keeps_whole_pages(step),
{
    let ps = step.state.page_size as int;
    let x = step.state.skip as int;
    vstd::arithmetic::div_mod::lemma_fundamental_div_mod(x, ps);
    if let Some(a) = step.page_changed {
        assert(0 <= x / ps <= x) by (nonlinear_arith)
            requires
                x >= 0,
                ps >= 1,
        ;
        assert(a.page_index == x / ps);
        assert(a.top == ps);
        assert(a.skip == x);
        assert(x == (x / ps) * ps) by (nonlinear_arith)
            requires
                x == ps * (x / ps) + x % ps,
                x % ps == 0,
        ;
        assert(a.skip == a.page_index * a.top);
    }
}

/// The multiples of `m`.
proof fn lemma_multiple(t: int, m: int)
    requires
        m >= 1,
    ensures
        (m * t) % m == 0,
        (t * m) % m == 0,
{
    vstd::arithmetic::div_mod::lemma_mod_multiples_basic(t, m);
    assert(m * t == t * m) by (nonlinear_arith);
}

/// Page changes always describe whole pages: from a state on a page boundary,
/// every event (a button, a key, a new page size) leaves the pager on a page
/// boundary, and each page change it reports has `top` equal to the page size
/// and `skip == page_index * top`; the reload button reports such a page too.
pub proof fn lemma_page_changes_are_whole_pages(
    st: PagerState,
    setup: PagerSetup,
    key: Seq<char>,
    new_ps: usize,
    page: usize,
    fi: i32,
)
    requires
        pager_ok(st, setup),
        page_aligned(st),
        key_defined(st, setup),
        st.focused_index <= displayed_pages(st, setup) + 1,
        page * st.page_size <= usize::MAX,
        new_ps >= 1,
    ensures
        keeps_whole_pages(first_page_step(st)),
        keeps_whole_pages(prev_page_step(st)),
        keeps_whole_pages(next_page_step(st, setup)),
        keeps_whole_pages(last_page_step(st, setup)),
        keeps_whole_pages(page_button_step(st, page as int, fi)),
        keeps_whole_pages(key_step(st, setup, key)),
        keeps_whole_pages(page_size_step(st, setup, new_ps as int)),
        whole_page(moved_to(st.skip as int, st.page_size as int)),
{
    lemma_reports_new_state(st, setup, key, new_ps, page, fi);
    lemma_layout_defined(st, setup);
    lemma_window_bounds(
        st.skip as int,
        st.page_size as int,
        setup.count as int,
        setup.page_numbers_count as int,
    );
    let ps = st.page_size as int;
    let s = st.skip as int;
    let np = page_count(setup.count as int, ps);
    let cur = current_page(s, ps);
    lemma_page_count_bounds(setup.count as int, ps);
    lemma_skip_stays_inside(ps, np - 1, np, setup.count as int);
    let target = if cur < np - 1 {
        cur + 1
    } else {
        np - 1
    };
    lemma_skip_stays_inside(ps, target, np, setup.count as int);
    lemma_multiple(0, ps);
    lemma_multiple(np - 1, ps);
    lemma_multiple(target, ps);
    lemma_multiple(page as int, ps);
    vstd::arithmetic::div_mod::lemma_mod_sub_multiples_vanish(s, ps);
    vstd::arithmetic::div_mod::lemma_fundamental_div_mod(s, ps);
    let start = window_start(s, ps, setup.count as int, setup.page_numbers_count as int);
    if st.focused_index >= 0 {
        lemma_multiple(start + st.focused_index, ps);
        assert((start + st.focused_index) * ps >= 0) by (nonlinear_arith)
            requires
                start >= 0,
                st.focused_index >= 0,
                ps >= 0,
        ;
    }
    assert(page * ps >= 0) by (nonlinear_arith)
        requires
            page >= 0,
            ps >= 0,
    ;
    let nps = new_ps as int;
    let np2 = page_count(setup.count as int, nps);
    lemma_page_count_bounds(setup.count as int, nps);
    lemma_skip_stays_inside(nps, np2 - 1, np2, setup.count as int);
    lemma_multiple(np2 - 1, nps);
    lemma_multiple(s / nps, nps);
    assert((s / nps) * nps <= s && (s / nps) * nps >= 0) by (nonlinear_arith)
        requires
            nps >= 1,
            s >= 0,
    ;
    if cur == 0 {
        assert(ps * (s / ps) == 0) by (nonlinear_arith)
            requires
                s / ps == 0,
        ;
        assert(s == 0);
        lemma_multiple(0, nps);
    }
    lemma_aligned_reports_whole_page(first_page_step(st));
    lemma_aligned_reports_whole_page(prev_page_step(st));
    lemma_aligned_reports_whole_page(next_page_step(st, setup));
    lemma_aligned_reports_whole_page(last_page_step(st, setup));
    lemma_aligned_reports_whole_page(page_button_step(st, page as int, fi));
    lemma_aligned_reports_whole_page(key_step(st, setup, key));
    lemma_aligned_reports_whole_page(page_size_step(st, setup, new_ps as int));
    lemma_aligned_reports_whole_page(
        PagerStep { state: st, page_changed: Some(moved_to(s, ps)), prevent_default: false },
    );
    assert(s / ps >= 0) by (nonlinear_arith)
        requires
            s >= 0,
            ps >= 1,
    ;
}

/// Space and Enter do the same thing: both activate the focused button and
/// take the key's default action.
pub proof fn lemma_space_and_enter_agree(st: PagerState, setup: PagerSetup)
    ensures
        key_step(st, setup, "Space"@) == key_step(st, setup, "Enter"@),
        key_step(st, setup, "Enter"@).prevent_default,
{
    reveal_strlit("Space");
    reveal_strlit("Enter");
    reveal_strlit("ArrowLeft");
    reveal_strlit("ArrowRight");
    assert("Space"@[0] != "ArrowLeft"@[0]);
    assert("Space"@[0] != "ArrowRight"@[0]);
    assert("Enter"@[0] != "ArrowLeft"@[0]);
    assert("Enter"@[0] != "ArrowRight"@[0]);
}

/// Enter on a focused page button goes where a click on that button goes: to
/// the page the button shows (unless already there), reporting the same page
/// change.
pub proof fn lemma_enter_on_page_button_clicks_it(st: PagerState, setup: PagerSetup)
    requires
        pager_ok(st, setup),
        0 <= st.focused_index < displayed_pages(st, setup),
    ensures
        ({
            let page = window_start(
                st.skip as int,
                st.page_size as int,
                setup.count as int,
                setup.page_numbers_count as int,
            ) + st.focused_index;
            let k = key_step(st, setup, "Enter"@);
            let b = page_button_step(st, page, st.focused_index);
            &&& k.state.skip == b.state.skip
            &&& k.state.page_size == st.page_size
            &&& k.page_changed == b.page_changed
        }),
{
    reveal_strlit("Enter");
    reveal_strlit("ArrowLeft");
    reveal_strlit("ArrowRight");
    assert("Enter"@[0] != "ArrowLeft"@[0]);
    assert("Enter"@[0] != "ArrowRight"@[0]);
    let page = window_start(
        st.skip as int,
        st.page_size as int,
        setup.count as int,
        setup.page_numbers_count as int,
    ) + st.focused_index;
    assert(page * st.page_size == st.page_size * page) by (nonlinear_arith);
}

/// Going forward one page and back one page returns to the same page, when
/// the pager is on a page boundary and not on the last page.
pub proof fn lemma_next_then_prev(st: PagerState, setup: PagerSetup, k: int)
    requires
        pager_ok(st, setup),
        st.page_size >= 1,
        0 <= k,
        st.skip == k * st.page_size,
        k < page_count(setup.count as int, st.page_size as int) - 1,
    ensures
        prev_page_step(next_page_step(st, setup).state).state.skip == st.skip,
{
    let ps = st.page_size as int;
    assert((k * ps) / ps == k) by (nonlinear_arith)
        requires
            ps >= 1,
    ;
    assert(ps * (k + 1) - ps == k * ps) by (nonlinear_arith);
    assert(ps * (k + 1) >= ps) by (nonlinear_arith)
        requires
            k >= 0,
            ps >= 1,
    ;
    lemma_page_count_bounds(setup.count as int, ps);
    lemma_skip_stays_inside(ps, k + 1, page_count(setup.count as int, ps), setup.count as int);
}

/// The first-page button always lands on the first page, and the last-page
/// button on the last page.
pub proof fn lemma_first_and_last_pages(st: PagerState, setup: PagerSetup)
    requires
        pager_ok(st, setup),
        st.page_size >= 1,
    ensures
        current_page(first_page_step(st).state.skip as int, st.page_size as int) == 0,
        current_page(last_page_step(st, setup).state.skip as int, st.page_size as int)
            == page_count(setup.count as int, st.page_size as int) - 1,
{
    let ps = st.page_size as int;
    let np = page_count(setup.count as int, ps);
    lemma_page_count_bounds(setup.count as int, ps);
    lemma_skip_stays_inside(ps, np - 1, np, setup.count as int);
    assert((ps * (np - 1)) / ps == np - 1) by (nonlinear_arith)
        requires
            ps >= 1,
            np >= 1,
    ;
}

} // verus!
