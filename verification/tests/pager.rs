use radzen_leptos::components::pager::{
    calculate_pager, first_button_class, first_page_click, last_page_click, next_page_click,
    page_button_class, page_button_click, page_label, page_size_changed, pager_css_class,
    pager_focus, pager_key_down, pager_visible, paging_summary, parse_page_size, prev_page_click,
    reload_click, shown_pages, PagerEventArgs, PagerSetup, PagerState, PagingInformation,
};
use radzen_leptos::components::{Density, HorizontalAlign};

fn st(skip: usize, page_size: usize, focused_index: i32) -> PagerState {
    PagerState { skip, page_size, focused_index }
}

fn setup() -> PagerSetup {
    PagerSetup { count: 95, page_numbers_count: 5 }
}

fn moved(skip: usize, top: usize, page_index: usize) -> Option<PagerEventArgs> {
    Some(PagerEventArgs { skip, top, page_index })
}

#[test]
fn window_of_page_buttons() {
    assert_eq!(calculate_pager(0, 10, 95, 5), (0, 4, 10));
    assert_eq!(calculate_pager(50, 10, 95, 5), (3, 7, 10));
    assert_eq!(calculate_pager(90, 10, 95, 5), (5, 9, 10));
    assert_eq!(calculate_pager(0, 10, 0, 5), (0, 0, 1));
    assert_eq!(calculate_pager(0, 0, 3, 5), (0, 2, 3));
}

#[test]
fn navigation_buttons() {
    let r = next_page_click(st(0, 10, 0), setup());
    assert_eq!(r.state, st(10, 10, 5));
    assert_eq!(r.page_changed, moved(10, 10, 1));
    let r = prev_page_click(st(10, 10, 5));
    assert_eq!(r.state, st(0, 10, 0));
    assert_eq!(r.page_changed, moved(0, 10, 0));
    let r = first_page_click(st(30, 10, 3));
    assert_eq!(r.state, st(0, 10, 0));
    assert_eq!(r.page_changed, moved(0, 10, 0));
    let r = last_page_click(st(0, 10, 0), setup());
    assert_eq!(r.state, st(90, 10, 4));
    assert_eq!(r.page_changed, moved(90, 10, 9));
    let r = page_button_click(st(0, 10, 0), setup(), 3, 3);
    assert_eq!(r.state, st(30, 10, 3));
    assert_eq!(r.page_changed, moved(30, 10, 3));
    assert_eq!(first_page_click(st(0, 10, 0)).page_changed, None);
    assert_eq!(reload_click(st(20, 10, 0)), PagerEventArgs { skip: 20, top: 10, page_index: 2 });
}

#[test]
fn next_then_previous_returns() {
    let a = st(20, 10, 2);
    let b = next_page_click(a, setup()).state;
    let c = prev_page_click(b).state;
    assert_eq!(c.skip, a.skip);
}

#[test]
fn keyboard() {
    let r = pager_key_down(st(0, 10, 0), setup(), "ArrowRight");
    assert_eq!(r.state, st(0, 10, 1));
    assert!(r.prevent_default);
    let r = pager_key_down(st(0, 10, 0), setup(), "ArrowLeft");
    assert_eq!(r.state, st(0, 10, 0));
    let r = pager_key_down(st(0, 10, 3), setup(), "Enter");
    assert_eq!(r.state, st(30, 10, 3));
    assert_eq!(r.page_changed, moved(30, 10, 3));
    let r = pager_key_down(st(0, 10, 3), setup(), "KeyX");
    assert!(!r.prevent_default);
    assert_eq!(r.state, st(0, 10, 3));
}

#[test]
fn focus_starts_on_first_page_button() {
    assert_eq!(pager_focus(st(0, 10, -3), setup()), st(0, 10, 0));
    assert_eq!(pager_focus(st(0, 10, -2), setup()), st(0, 10, 0));
    assert_eq!(pager_focus(st(90, 10, 8), setup()), st(90, 10, 8));
}

#[test]
fn changing_page_size() {
    let r = page_size_changed(st(50, 10, 0), setup(), 20);
    assert_eq!(r.state, st(40, 20, 0));
    assert_eq!(r.page_changed, moved(40, 20, 2));
    let r = page_size_changed(st(90, 10, 0), setup(), 20);
    assert_eq!(r.state, st(80, 20, 0));
    let r = page_size_changed(st(0, 10, 0), setup(), 20);
    assert_eq!(r.state, st(0, 20, 0));
    assert_eq!(r.page_changed, None);
    assert_eq!(parse_page_size("25"), Some(25));
    assert_eq!(parse_page_size("abc"), None);
}

#[test]
fn visibility_and_classes() {
    assert!(!pager_visible(true, false, 5, 10, false));
    assert!(pager_visible(true, false, 11, 10, false));
    assert!(pager_visible(true, true, 0, 10, false));
    assert!(!pager_visible(false, true, 100, 10, true));
    assert_eq!(
        pager_css_class(Density::Compact, HorizontalAlign::Left, "x"),
        "rz-pager rz-unselectable-text rz-helper-clearfix rz-density-compact rz-horizontal-align-left x"
    );
    assert_eq!(first_button_class(st(0, 10, -2)), "rz-pager-first rz-pager-element rz-state-disabled rz-state-focused");
    assert_eq!(
        page_button_class(st(50, 10, 2), setup(), 5),
        "rz-pager-page rz-pager-element rz-state-active rz-state-focused"
    );
    assert_eq!(page_button_class(st(50, 10, 2), setup(), 4), "rz-pager-page rz-pager-element");
}

#[test]
fn pages_and_summary() {
    assert_eq!(shown_pages(st(50, 10, 0), setup()), vec![3, 4, 5, 6, 7]);
    let (info, text) = paging_summary(st(50, 10, 0), setup(), "Page {0} of {1} ({2} items)");
    assert_eq!(info, PagingInformation { current_page: 6, total_pages: 10, total_count: 95 });
    assert_eq!(text, "Page 6 of 10 (95 items)");
    assert_eq!(page_label("Go to page {0}", 4), "Go to page 5");
}

#[test]
fn pager_window_for_large_counts() {
    assert_eq!(calculate_pager(90, 10, 100, 5), (5, 9, 10));
    let big = 10_000_000_000usize;
    assert_eq!(calculate_pager(0, 10, big, 5), (0, 4, 1_000_000_000));
    assert_eq!(calculate_pager(big - 10, 10, big, 5), (999_999_995, 999_999_999, 1_000_000_000));
    assert_eq!(calculate_pager(0, 1, usize::MAX, usize::MAX), (0, usize::MAX - 1, usize::MAX));
}

#[test]
fn pager_events_with_large_counts() {
    let setup = PagerSetup { count: 10_000_000_000, page_numbers_count: 5 };
    let r = next_page_click(st(0, 10, -3), setup);
    assert_eq!(r.state.skip, 10);
    assert_eq!(r.page_changed, Some(PagerEventArgs { skip: 10, top: 10, page_index: 1 }));
    let r = last_page_click(st(0, 10, -3), setup);
    assert_eq!(r.state.skip, 9_999_999_990);
    assert_eq!(
        r.page_changed,
        Some(PagerEventArgs { skip: 9_999_999_990, top: 10, page_index: 999_999_999 })
    );
    assert_eq!(shown_pages(r.state, setup), vec![999_999_995, 999_999_996, 999_999_997, 999_999_998, 999_999_999]);
}
