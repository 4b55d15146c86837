use radzen_leptos::components::dropdown::{
    aria_flag, blur_action, checkbox_classes, clear_all, dropdown_root_class,
    enabled_item_values, find_label, hidden_value, label_display, list_item_class, panel_layout,
    popup_key, select_all, select_item, selected_label, shows_clear_button, toggle_popup,
    PopupAction,
};
use radzen_leptos::components::dropdown_base::{
    build_drop_down_root_class, drop_down_has_value, filter_items, DropDownItem, DropDownProps,
};
use radzen_leptos::components::selection::{is_value_selected, SelectionValue};

fn items() -> Vec<DropDownItem> {
    vec![
        DropDownItem::new("1", "Orders"),
        DropDownItem::new("2", "Employees").disabled(),
        DropDownItem::new("3", "Ordinal"),
    ]
}

fn labels(v: &[DropDownItem]) -> Vec<String> {
    v.iter().map(|i| i.label.clone()).collect()
}

fn strings(v: &[&str]) -> Vec<String> {
    v.iter().map(|s| s.to_string()).collect()
}

#[test]
fn items_and_defaults() {
    let i = DropDownItem::new("v", "Label");
    assert_eq!((i.value.as_str(), i.label.as_str(), i.disabled), ("v", "Label", false));
    assert!(i.disabled().disabled);
    let p = DropDownProps::default();
    assert_eq!(p.max_selected_labels, 4);
    assert_eq!(p.selected_items_text, "items selected");
    assert_eq!(p.popup_style, "max-height:200px;overflow-x:hidden");
    assert!(p.allow_select_all);
    assert_eq!(p.effective_tab(), 0);
    let disabled = DropDownProps { disabled: true, tab_index: 4, ..DropDownProps::default() };
    assert_eq!(disabled.effective_tab(), -1);
}

#[test]
fn filtering_is_case_insensitive_contains() {
    let all = items();
    assert_eq!(labels(&filter_items(&all, true, "ORD", false)), vec!["Orders", "Ordinal"]);
    assert_eq!(labels(&filter_items(&all, true, "ORD", true)), Vec::<String>::new());
    assert_eq!(labels(&filter_items(&all, true, "  ", false)), vec!["Orders", "Employees", "Ordinal"]);
    assert_eq!(labels(&filter_items(&all, false, "x", false)), vec!["Orders", "Employees", "Ordinal"]);
}

#[test]
fn holding_a_value() {
    assert!(drop_down_has_value(false, Some("1"), None));
    assert!(!drop_down_has_value(false, Some(""), None));
    assert!(!drop_down_has_value(false, None, None));
    assert!(drop_down_has_value(true, None, Some(&strings(&["1"]))));
    assert!(!drop_down_has_value(true, Some("1"), Some(&Vec::new())));
}

#[test]
fn root_classes() {
    assert_eq!(
        build_drop_down_root_class("rz-dropdown", &[("rz-clear", true), ("x", false)], false, false, Some("c")),
        "rz-dropdown rz-state-empty rz-clear c"
    );
    assert_eq!(
        dropdown_root_class(true, true, true, true, true, true, "mine"),
        "rz-dropdown rz-state-disabled rz-clear rz-dropdown-chips rz-state-focused mine"
    );
    assert_eq!(dropdown_root_class(false, true, false, true, false, false, ""), "rz-dropdown");
}

#[test]
fn selection_labels() {
    let all = items();
    assert_eq!(find_label(&all, "3"), Some("Ordinal".to_string()));
    assert_eq!(find_label(&all, "9"), None);
    assert_eq!(selected_label(true, &strings(&["3", "9", "1"]), "", &all, 4, "items selected"), "Ordinal, Orders");
    assert_eq!(selected_label(true, &strings(&["1", "2", "3"]), "", &all, 2, "items selected"), "3 items selected");
    assert_eq!(selected_label(true, &Vec::new(), "", &all, 2, "items selected"), "");
    assert_eq!(selected_label(false, &Vec::new(), "2", &all, 2, "x"), "Employees");
    assert_eq!(selected_label(false, &Vec::new(), "7", &all, 2, "x"), "");
}

#[test]
fn selected_values_and_hidden_input() {
    let vs = strings(&["a", "b"]);
    assert!(is_value_selected(true, None, Some(&vs), "b"));
    assert!(!is_value_selected(true, Some("b"), None, "b"));
    assert!(is_value_selected(false, Some("b"), None, "b"));
    assert_eq!(hidden_value(true, None, Some(&vs)), "a,b");
    assert_eq!(hidden_value(false, Some("b"), Some(&vs)), "b");
    assert_eq!(hidden_value(false, None, None), "");
}

#[test]
fn selecting_items() {
    let mut v = SelectionValue { single: Some(String::new()), multi: Some(strings(&["1"])) };
    let c = select_item("3", false, false, true, &mut v);
    assert_eq!(c.changed.as_deref(), Some("1,3"));
    assert!(!c.close);
    assert_eq!(v.multi, Some(strings(&["1", "3"])));
    let c = select_item("1", false, false, true, &mut v);
    assert_eq!(c.changed.as_deref(), Some("3"));
    let c = select_item("3", false, false, false, &mut v);
    assert_eq!(c.changed.as_deref(), Some("3"));
    assert!(c.close);
    assert_eq!(v.single.as_deref(), Some("3"));
    let c = select_item("1", true, false, false, &mut v);
    assert!(c.changed.is_none() && !c.close);
    let mut unbound = SelectionValue { single: None, multi: None };
    assert!(select_item("1", false, false, true, &mut unbound).changed.is_none());
    let c = select_item("1", false, false, false, &mut unbound);
    assert_eq!(c.changed.as_deref(), Some("1"));
    assert!(unbound.single.is_none());
}

#[test]
fn selecting_all_toggles() {
    let all = items();
    assert_eq!(enabled_item_values(&all), strings(&["1", "3"]));
    let mut m = Some(Vec::new());
    assert_eq!(select_all(false, false, &all, &mut m).as_deref(), Some("1,3"));
    assert_eq!(m, Some(strings(&["1", "3"])));
    assert_eq!(select_all(false, false, &all, &mut m).as_deref(), Some(""));
    assert_eq!(m, Some(Vec::new()));
    assert_eq!(select_all(false, true, &all, &mut m), None);
    let mut none: Option<Vec<String>> = None;
    assert_eq!(select_all(false, false, &all, &mut none), None);
}

#[test]
fn clearing() {
    let mut v = SelectionValue { single: Some("2".to_string()), multi: Some(strings(&["1"])) };
    assert_eq!(clear_all(false, false, false, &mut v), (Some(String::new()), true));
    assert_eq!(v.single.as_deref(), Some(""));
    assert_eq!(v.multi, Some(strings(&["1"])));
    assert_eq!(clear_all(false, false, true, &mut v), (Some(String::new()), true));
    assert_eq!(v.multi, Some(Vec::new()));
    assert_eq!(clear_all(true, false, true, &mut v), (None, false));
    let mut unbound = SelectionValue { single: None, multi: None };
    assert_eq!(clear_all(false, false, false, &mut unbound), (None, true));
}

#[test]
fn popup_open_and_close() {
    assert_eq!(toggle_popup(false, false, false), PopupAction::Open);
    assert_eq!(toggle_popup(true, false, false), PopupAction::Close);
    assert_eq!(toggle_popup(false, true, false), PopupAction::Stay);
    assert_eq!(popup_key("Escape", false), (false, PopupAction::Close));
    assert_eq!(popup_key("ArrowDown", false), (true, PopupAction::Open));
    assert_eq!(popup_key(" ", true), (true, PopupAction::Stay));
    assert_eq!(popup_key("x", false), (false, PopupAction::Stay));
    assert_eq!(blur_action(false), PopupAction::Dismiss);
    assert_eq!(blur_action(true), PopupAction::Stay);
}

#[test]
fn panel() {
    let all = items();
    let vs = strings(&["1", "3"]);
    let p = panel_layout(true, true, true, true, false, false, &all, Some(&vs));
    assert_eq!(p.panel_class, "rz-multiselect-panel");
    assert!(p.multi_header && p.header_clear && p.all_selected && !p.single_filter);
    assert_eq!(p.item_class, "rz-multiselect-item");
    let q = panel_layout(false, true, false, false, false, true, &all, None);
    assert!(q.single_filter && !q.multi_header && !q.all_selected);
    assert!(q.position_style.contains("bottom: 100%"));
    assert_eq!(q.list_class, "rz-dropdown-items rz-dropdown-list");
}

#[test]
fn item_look() {
    assert_eq!(list_item_class("rz-dropdown-item", true, true), "rz-dropdown-item rz-state-highlight rz-state-disabled");
    assert_eq!(list_item_class("rz-dropdown-item", false, false), "rz-dropdown-item");
    assert_eq!(checkbox_classes(true), ("notranslate rz-chkbox-box rz-state-active", "notranslate rz-chkbox-icon rzi rzi-check"));
    assert_eq!(aria_flag(false), "false");
    assert!(shows_clear_button(false, true, false, true));
    assert!(!shows_clear_button(true, true, false, true));
}

#[test]
fn label_text() {
    assert_eq!(label_display("Orders", Some("Pick")), ("rz-dropdown-label rz-inputtext", "Orders".to_string()));
    assert_eq!(label_display("", Some("Pick")), ("rz-dropdown-label rz-inputtext rz-placeholder", "Pick".to_string()));
    assert_eq!(label_display("", None), ("rz-dropdown-label rz-inputtext", "\u{a0}".to_string()));
}

#[test]
fn selected_text_reads_labels_from_full_data() {
    let props = DropDownProps {
        data: vec![DropDownItem::new("1", "Orders"), DropDownItem::new("2", "Employees")],
        multiple: true,
        allow_filtering: true,
        ..Default::default()
    };
    // The filter "ord" hides "Employees" from the list ...
    assert_eq!(labels(&filter_items(&props.data, true, "ord", false)), vec!["Orders"]);
    // ... but the selection still shows both labels.
    let values = vec!["1".to_string(), "2".to_string()];
    assert_eq!(props.selected_text(&values, ""), "Orders, Employees");
    let single = DropDownProps { multiple: false, ..props };
    assert_eq!(single.selected_text(&Vec::new(), "2"), "Employees");
}
