use radzen_leptos::components::alert::{
    alert_css_class, alert_icon, alert_style_attr, close_button_shade, close_button_size,
    close_button_style,
};
use radzen_leptos::components::badge::badge_css_class;
use radzen_leptos::components::button::{button_click, button_css_class, button_disabled, shows_text, ClickStart};
use radzen_leptos::components::card::card_css_class;
use radzen_leptos::components::check_box::{
    aria_checked, box_css_class, check_box_css_class, check_box_key, check_box_toggle,
    icon_css_class, input_value,
};
use radzen_leptos::components::component_macro::{
    base_prop_list, check_component, error_message, is_base_prop_name, ComponentMacroError,
};
use radzen_leptos::components::icon::{icon_css_class as icon_class, icon_style};
use radzen_leptos::components::image::{image_alt_text, image_key_clicks, image_role};
use radzen_leptos::components::label::label_css_class;
use radzen_leptos::components::link::{color_style, is_exact, link_css_class, NavLinkMatch};
use radzen_leptos::components::numeric::{numeric_css_class, numeric_input_class, numeric_key, typed_number, StepDirection};
use radzen_leptos::components::password::password_css_class;
use radzen_leptos::components::stack::{flex_direction, stack_css_class, stack_style};
use radzen_leptos::components::text::{anchor_href, resolved_tag, text_css_class};
use radzen_leptos::components::text_area::text_area_css_class;
use radzen_leptos::components::text_box::{
    aria_autocomplete_value, committed_text, input_id, is_spread_attribute, max_length_attr,
    text_box_css_class,
};
use radzen_leptos::components::{
    AlertSize, AlertStyle, AlignItems, AutoCompleteType, BadgeStyle, ButtonSize, ButtonStyle,
    FlexWrap, IconStyle, JustifyContent, Orientation, Shade, TagName, TextAlign, TextStyle, Variant,
};

#[test]
fn alert_classes_and_close_button() {
    assert_eq!(
        alert_css_class(AlertSize::Small, Variant::Flat, AlertStyle::Danger, Shade::Light, Some("mine")),
        "rz-alert rz-alert-sm rz-variant-flat rz-danger rz-shade-light mine"
    );
    assert_eq!(close_button_size(AlertSize::ExtraSmall), ButtonSize::ExtraSmall);
    assert_eq!(close_button_size(AlertSize::Large), ButtonSize::Small);
    assert_eq!(close_button_shade(Shade::Lighter), Shade::Darker);
    assert_eq!(close_button_shade(Shade::Dark), Shade::Default);
    assert_eq!(close_button_style(Shade::Light, AlertStyle::Success), ButtonStyle::Success);
    assert_eq!(close_button_style(Shade::Light, AlertStyle::Dark), ButtonStyle::Light);
    assert_eq!(close_button_style(Shade::Default, AlertStyle::Base), ButtonStyle::Dark);
    assert_eq!(close_button_style(Shade::Default, AlertStyle::Success), ButtonStyle::Light);
}

#[test]
fn alert_style_and_icon() {
    assert_eq!(alert_style_attr(true, "color: red"), "color: red");
    assert_eq!(alert_style_attr(false, ""), "display:none");
    assert_eq!(alert_style_attr(false, "color: red"), "display:none; color: red");
    assert_eq!(alert_icon(None, AlertStyle::Warning), "warning_amber");
    assert_eq!(alert_icon(Some("star"), AlertStyle::Warning), "star");
}

#[test]
fn badge_and_card() {
    assert_eq!(
        badge_css_class(BadgeStyle::Danger, Variant::Outlined, Shade::Light, true, Some("my-custom-class")),
        "rz-badge rz-badge-danger rz-variant-outlined rz-shade-light rz-badge-pill my-custom-class"
    );
    assert_eq!(card_css_class(Variant::Filled, Some("caller-extra")), "rz-card rz-variant-filled caller-extra");
    assert_eq!(card_css_class(Variant::Filled, None), "rz-card rz-variant-filled");
}

#[test]
fn button_class_and_clicks() {
    assert_eq!(
        button_css_class(ButtonSize::Medium, Variant::Filled, ButtonStyle::Primary, true, Shade::Default, "Save", false, None),
        "rz-button rz-button-md rz-variant-filled rz-primary rz-state-disabled rz-shade-default"
    );
    assert_eq!(
        button_css_class(ButtonSize::Small, Variant::Text, ButtonStyle::Light, false, Shade::Darker, "  ", true, Some("x")),
        "rz-button rz-button-sm rz-variant-text rz-light rz-shade-darker rz-button-icon-only x"
    );
    assert!(button_disabled(false, true));
    assert_eq!(button_click(false, false, true), ClickStart { run: true, clicking: true });
    assert_eq!(button_click(false, true, true), ClickStart { run: false, clicking: true });
    assert_eq!(button_click(true, false, true), ClickStart { run: false, clicking: false });
    assert_eq!(button_click(false, false, false), ClickStart { run: false, clicking: false });
    assert!(!shows_text(" "));
}

#[test]
fn check_box_cycles() {
    assert_eq!(check_box_toggle(Some(false), false, false, false), Some(Some(true)));
    assert_eq!(check_box_toggle(Some(true), false, false, false), Some(Some(false)));
    assert_eq!(check_box_toggle(Some(false), true, false, false), Some(None));
    assert_eq!(check_box_toggle(None, true, false, false), Some(Some(true)));
    assert_eq!(check_box_toggle(Some(true), false, true, false), None);
    assert_eq!(check_box_toggle(Some(true), false, false, true), None);
    assert!(check_box_key("Space"));
    assert!(!check_box_key("Enter"));
}

#[test]
fn check_box_look() {
    assert_eq!(aria_checked(None), "mixed");
    assert_eq!(input_value(None), "false");
    assert_eq!(check_box_css_class(true, Some("c")), "rz-chkbox rz-state-disabled c");
    assert_eq!(box_css_class(None, false), "notranslate rz-chkbox-box rz-state-active");
    assert_eq!(box_css_class(Some(false), true), "notranslate rz-chkbox-box rz-state-disabled");
    assert_eq!(icon_css_class(None), "notranslate rz-chkbox-icon rzi rzi-times");
}

#[test]
fn icon_look() {
    assert_eq!(icon_class(Some(IconStyle::Rounded), Some("rz-alert-icon")), "notranslate rzi rzi-rounded rz-alert-icon");
    assert_eq!(icon_class(None, None), "notranslate rzi");
    assert_eq!(icon_style(Some("red"), "margin: 0"), "color:red;margin: 0");
    assert_eq!(icon_style(None, ""), "");
}

#[test]
fn image_behaviour() {
    assert_eq!(image_alt_text("image", Some("logo")), "image logo");
    assert_eq!(image_alt_text("image", Some("")), "image");
    assert_eq!(image_alt_text("image", None), "image");
    assert_eq!(image_role(true), (Some("button"), Some("0")));
    assert_eq!(image_role(false), (None, None));
    assert!(image_key_clicks("", "Enter", true));
    assert!(image_key_clicks("Space", "x", true));
    assert!(!image_key_clicks("Space", "x", false));
}

#[test]
fn label_and_link() {
    assert_eq!(label_css_class(Some("a")), "rz-label a");
    assert_eq!(link_css_class(true, None), "rz-link rz-link-disabled");
    assert!(is_exact(&NavLinkMatch::All));
    assert!(!is_exact(&NavLinkMatch::default()));
    assert_eq!(color_style(Some("blue")), "color:blue");
    assert_eq!(color_style(None), "");
}

#[test]
fn numeric_behaviour() {
    assert_eq!(numeric_css_class(true, None), "rz-numeric rz-state-disabled");
    assert_eq!(numeric_input_class(&TextAlign::JustifyAll), "rz-numeric-input rz-inputtext rz-text-align-justify");
    assert_eq!(numeric_key("ArrowUp", "", false, false), Some(StepDirection::Up));
    assert_eq!(numeric_key("", "ArrowDown", false, false), Some(StepDirection::Down));
    assert_eq!(numeric_key("ArrowUp", "", true, false), None);
    assert_eq!(typed_number("  "), None);
    assert_eq!(typed_number(" 3.5 "), Some("3.5".to_string()));
}

#[test]
fn stack_layout() {
    assert_eq!(stack_css_class(None), "rz-stack");
    assert_eq!(flex_direction(&Orientation::Horizontal, true), "row-reverse");
    assert_eq!(
        stack_style(&Orientation::Vertical, false, Some(" 1rem "), &AlignItems::Center, &JustifyContent::SpaceBetween, &FlexWrap::Wrap, "color: red"),
        "display: flex; flex-direction: column; gap: 1rem; align-items: center; justify-content: space-between; flex-wrap: wrap; color: red"
    );
    assert_eq!(
        stack_style(&Orientation::Horizontal, false, Some("  "), &AlignItems::Normal, &JustifyContent::Normal, &FlexWrap::NoWrap, ""),
        "display: flex; flex-direction: row;"
    );
}

#[test]
fn text_component() {
    assert_eq!(resolved_tag(&TagName::Auto, &TextStyle::H3), "h3");
    assert_eq!(resolved_tag(&TagName::Span, &TextStyle::H3), "span");
    assert_eq!(text_css_class(&TextStyle::Body1, Some("x"), TextAlign::Center), "rz-text-body1 x rz-text-align-center");
    assert_eq!(text_css_class(&TextStyle::H3, None, TextAlign::Left), "rz-text-h3");
    assert_eq!(anchor_href("intro"), "#intro");
}

#[test]
fn text_inputs() {
    assert_eq!(aria_autocomplete_value(&AutoCompleteType::Off), "none");
    assert_eq!(aria_autocomplete_value(&AutoCompleteType::Email), "both");
    assert_eq!(text_box_css_class(true, true, "w-full"), "rz-textbox rz-state-disabled rz-state-empty w-full");
    assert_eq!(text_box_css_class(false, false, ""), "rz-textbox");
    assert_eq!(password_css_class(false, true, ""), "rz-textbox rz-state-empty");
    assert_eq!(text_area_css_class(false, false, "c"), "rz-textarea c");
    assert!(!is_spread_attribute("class"));
    assert!(is_spread_attribute("data-x"));
    assert_eq!(input_id(Some("email"), "rz-1"), "email");
    assert_eq!(input_id(None, "rz-1"), "rz-1");
    assert_eq!(max_length_attr(Some(64)), Some("64".to_string()));
    assert_eq!(max_length_attr(None), None);
    assert_eq!(committed_text("  a b ", true), "a b");
    assert_eq!(committed_text("  a b ", false), "  a b ");
}

#[test]
fn component_attribute_rules() {
    assert_eq!(base_prop_list().len(), 8);
    assert!(is_base_prop_name("on_mouse_leave"));
    assert!(!is_base_prop_name("text"));
    let none: Vec<String> = Vec::new();
    let ok = vec!["text".to_string(), "disabled".to_string()];
    assert!(check_component(&none, &ok).is_ok());
    let attrs = vec!["prop".to_string(), "component".to_string()];
    assert!(matches!(check_component(&attrs, &ok), Err(ComponentMacroError::ComponentAttribute)));
    let params = vec!["text".to_string(), "style".to_string(), "base".to_string()];
    match check_component(&none, &params) {
        Err(e) => {
            assert!(matches!(e, ComponentMacroError::ReservedProp(ref n) if n == "style"));
            assert_eq!(
                error_message(&e),
                "'style' is a reserved base prop injected by #[radzen_component]. Remove it from the function signature."
            );
        }
        Ok(()) => panic!("style is reserved"),
    }
    let params = vec!["base".to_string()];
    assert_eq!(
        error_message(&check_component(&none, &params).unwrap_err()),
        "'base: ComponentProps' is no longer needed with #[radzen_component]."
    );
}

#[test]
fn shade_class_is_its_lowercased_suffix() {
    let all = [Shade::Lighter, Shade::Light, Shade::Default, Shade::Dark, Shade::Darker];
    let suffixes: Vec<&str> = all.iter().map(|s| s.suffix()).collect();
    assert_eq!(suffixes, vec!["lighter", "light", "DEFAULT", "dark", "darker"]);
    for s in all.iter() {
        assert_eq!(s.css_class(), format!("rz-shade-{}", s.suffix().to_lowercase()));
    }
}
