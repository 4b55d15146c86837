use radzen_leptos::components::select_bar::{
    bar_blur, bar_click, bar_focus, bar_key, button_class, register_item, select_bar_class,
    select_value, visible_items, BarFocus, SelectBarItemData,
};
use radzen_leptos::components::selection::SelectionValue;
use radzen_leptos::components::{ButtonSize, Orientation};

fn item(value: &str, disabled: bool, visible: bool) -> SelectBarItemData {
    SelectBarItemData {
        value: value.to_string(),
        text: value.to_uppercase(),
        icon: None,
        image_url: None,
        disabled,
        visible,
    }
}

fn focus(index: i32, focused: bool) -> BarFocus {
    BarFocus { index, focused }
}

#[test]
fn registering_skips_known_values() {
    let mut items = Vec::new();
    register_item(&mut items, item("a", false, true));
    register_item(&mut items, item("b", false, true));
    register_item(&mut items, item("a", true, false));
    assert_eq!(items.len(), 2);
    assert!(!items[0].disabled);
}

#[test]
fn only_visible_items_show() {
    let items = vec![item("a", false, true), item("b", false, false), item("c", false, true)];
    let shown: Vec<String> = visible_items(&items).into_iter().map(|i| i.value).collect();
    assert_eq!(shown, vec!["a", "c"]);
}

#[test]
fn selecting_values() {
    let mut v = SelectionValue { single: Some("a".to_string()), multi: Some(vec!["x".to_string()]) };
    assert_eq!(select_value("b", false, false, &mut v).as_deref(), Some("b"));
    assert_eq!(v.single.as_deref(), Some("b"));
    assert_eq!(select_value("y", false, true, &mut v).as_deref(), Some("x,y"));
    assert_eq!(select_value("x", false, true, &mut v).as_deref(), Some("y"));
    assert_eq!(select_value("z", true, true, &mut v), None);
}

#[test]
fn arrows_skip_disabled_buttons() {
    let disabled = vec![false, true, false];
    let r = bar_key("ArrowRight", "", focus(0, false), &disabled, false);
    assert!(r.prevent_default);
    assert_eq!(r.focus, focus(2, true));
    let r = bar_key("ArrowLeft", "", focus(2, true), &disabled, false);
    assert_eq!(r.focus, focus(0, true));
    let r = bar_key("ArrowLeft", "", focus(0, true), &disabled, false);
    assert_eq!(r.focus, focus(0, true));
    let r = bar_key("", "ArrowRight", focus(-1, false), &disabled, false);
    assert_eq!(r.focus, focus(2, true));
}

#[test]
fn arrow_stops_at_disabled_edge() {
    let disabled = vec![true, false, false];
    let r = bar_key("ArrowLeft", "", focus(1, true), &disabled, false);
    assert_eq!(r.focus, focus(0, true));
}

#[test]
fn home_end_and_select() {
    let disabled = vec![false, true, false];
    assert_eq!(bar_key("Home", "", focus(2, false), &disabled, false).focus, focus(0, true));
    assert_eq!(bar_key("End", "", focus(0, false), &disabled, false).focus, focus(2, true));
    assert_eq!(bar_key("Space", "", focus(2, true), &disabled, false).select, Some(2));
    assert_eq!(bar_key("Enter", "", focus(1, true), &disabled, false).select, None);
    assert_eq!(bar_key("Enter", "", focus(2, true), &disabled, true).select, None);
    let r = bar_key("KeyA", "", focus(2, true), &disabled, false);
    assert!(!r.prevent_default && r.select.is_none());
    let r = bar_key("Home", "", focus(1, true), &Vec::new(), false);
    assert!(!r.prevent_default);
    assert_eq!(r.focus, focus(1, true));
}

#[test]
fn focus_and_click() {
    assert_eq!(bar_focus(focus(-1, false)), focus(0, true));
    assert_eq!(bar_focus(focus(3, false)), focus(3, true));
    assert_eq!(bar_blur(focus(3, true)), focus(3, false));
    assert_eq!(bar_click(focus(0, true), 2, false), (focus(2, true), true));
    assert_eq!(bar_click(focus(0, true), 2, true), (focus(0, true), false));
}

#[test]
fn classes() {
    assert_eq!(
        select_bar_class(&Orientation::Horizontal, 3, "x"),
        "rz-selectbar rz-buttonset rz-selectbar-horizontal rz-buttonset-3 x"
    );
    assert_eq!(select_bar_class(&Orientation::Vertical, 0, ""), "rz-selectbar rz-buttonset rz-selectbar-vertical rz-buttonset-0");
    assert_eq!(
        button_class(ButtonSize::Medium, true, false, true),
        "rz-button rz-button-text-only rz-button-md rz-state-active rz-state-disabled"
    );
    assert_eq!(button_class(ButtonSize::Small, false, true, false), "rz-button rz-button-text-only rz-button-sm rz-state-focused");
}
