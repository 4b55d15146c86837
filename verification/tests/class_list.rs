use radzen_leptos::components::{
    BadgeStyle, ButtonSize, ButtonStyle, ClassList, Shade, TagName, TextAlign, TextStyle, Variant,
};
use std::collections::HashMap;

#[test]
fn test_create_sets_root_class() {
    let css = ClassList::create("rz-button").finish();
    assert_eq!(css, "rz-button");
}

#[test]
fn test_create_empty_root_ignored() {
    let css = ClassList::create("").add_class("btn").finish();
    assert_eq!(css, "btn");
}

#[test]
fn test_add_single_class() {
    let css = ClassList::new().add_class("btn").finish();
    assert_eq!(css, "btn");
}

#[test]
fn test_add_multiple_classes() {
    let css = ClassList::new()
        .add_class("btn")
        .add_class("btn-primary")
        .finish();
    assert_eq!(css, "btn btn-primary");
}

#[test]
fn test_conditional_add() {
    let css = ClassList::new()
        .add_class("btn")
        .add("disabled", true)
        .add("hidden", false)
        .finish();
    assert_eq!(css, "btn disabled");
}

#[test]
fn test_add_variant() {
    let css = ClassList::new().add_variant(Variant::Outlined).finish();
    assert_eq!(css, "rz-variant-outlined");
}

#[test]
fn test_add_button_size() {
    let css = ClassList::new().add_button_size(ButtonSize::Large).finish();
    assert_eq!(css, "rz-button-lg");
}

#[test]
fn test_add_button_size_extra_small() {
    let css = ClassList::new()
        .add_button_size(ButtonSize::ExtraSmall)
        .finish();
    assert_eq!(css, "rz-button-xs");
}

#[test]
fn test_add_button_style() {
    let css = ClassList::new()
        .add_button_style(ButtonStyle::Danger)
        .finish();
    assert_eq!(css, "rz-danger");
}

#[test]
fn test_add_shade_uses_css_class() {
    assert_eq!(
        ClassList::new().add_shade(Shade::Dark).finish(),
        "rz-shade-dark"
    );
    assert_eq!(
        ClassList::new().add_shade(Shade::Lighter).finish(),
        "rz-shade-lighter"
    );
    assert_eq!(
        ClassList::new().add_shade(Shade::Default).finish(),
        "rz-shade-default"
    );
}

/// Canonical class order for RadzenButton:
///   rz-button → size → variant → style → disabled → shade → [icon-only] → [caller]
#[test]
fn test_button_class_order_matches_blazor() {
    let css = ClassList::create("rz-button")
        .add_button_size(ButtonSize::Medium)
        .add_variant(Variant::Filled)
        .add_button_style(ButtonStyle::Primary)
        .add_disabled(true)
        .add_shade(Shade::Default)
        .finish();
    assert_eq!(
        css,
        "rz-button rz-button-md rz-variant-filled rz-primary rz-state-disabled rz-shade-default"
    );
}

/// Canonical class order for RadzenBadge:
///   rz-badge → rz-badge-{style} → variant → shade → [pill] → [caller]
#[test]
fn test_badge_class_order_matches_blazor() {
    let css = ClassList::create("rz-badge")
        .add_badge_style(BadgeStyle::Danger)
        .add_variant(Variant::Outlined)
        .add_shade(Shade::Light)
        .add("rz-badge-pill", true)
        .add_caller_class(Some("my-custom-class"))
        .finish();
    assert_eq!(
        css,
        "rz-badge rz-badge-danger rz-variant-outlined rz-shade-light rz-badge-pill my-custom-class"
    );
}

/// Caller class always comes last.
#[test]
fn test_caller_class_is_last() {
    let css = ClassList::create("rz-card")
        .add_variant(Variant::Filled)
        .add_caller_class(Some("caller-extra"))
        .finish();
    assert_eq!(css, "rz-card rz-variant-filled caller-extra");
}

/// `add_caller_class(None)` is a no-op.
#[test]
fn test_caller_class_none_is_noop() {
    let css = ClassList::create("rz-card")
        .add_variant(Variant::Filled)
        .add_caller_class(None)
        .finish();
    assert_eq!(css, "rz-card rz-variant-filled");
}

#[test]
fn test_combined_build() {
    let css = ClassList::create("btn")
        .add_button_size(ButtonSize::Medium)
        .add_button_style(ButtonStyle::Primary)
        .add_variant(Variant::Filled)
        .add_disabled(false)
        .add_shade(Shade::Default)
        .finish();
    assert_eq!(
        css,
        "btn rz-button-md rz-primary rz-variant-filled rz-shade-default"
    );
}

#[test]
fn test_empty_class_ignored() {
    let css = ClassList::new().add("", true).add_class("btn").finish();
    assert_eq!(css, "btn");
}

#[test]
fn test_add_from_attrs() {
    let mut attrs = HashMap::new();
    attrs.insert("class".to_string(), "custom-class".to_string());
    let css = ClassList::new()
        .add_class("btn")
        .add_from_attrs(&attrs)
        .finish();
    assert_eq!(css, "btn custom-class");
}

// ── RadzenText class-building tests ───────────────────────────────────────

/// TextAlign::Left → no align class emitted.
#[test]
fn text_left_align_emits_no_class() {
    let css = ClassList::new()
        .add_text_style(TextStyle::H3)
        .add_text_align(TextAlign::Left)
        .finish();
    assert_eq!(css, "rz-text-h3");
}

/// TextAlign::Center → `rz-text-align-center` appended.
#[test]
fn text_center_align_emits_class() {
    let css = ClassList::new()
        .add_text_style(TextStyle::Body1)
        .add_text_align(TextAlign::Center)
        .finish();
    assert_eq!(css, "rz-text-body1 rz-text-align-center");
}

#[test]
fn text_style_subtitle1_class() {
    assert_eq!(
        ClassList::new()
            .add_text_style(TextStyle::Subtitle1)
            .finish(),
        "rz-text-subtitle1"
    );
}

#[test]
fn text_style_display_h1_class() {
    assert_eq!(
        ClassList::new()
            .add_text_style(TextStyle::DisplayH1)
            .finish(),
        "rz-text-display-h1"
    );
}

#[test]
fn text_style_overline_class() {
    assert_eq!(
        ClassList::new()
            .add_text_style(TextStyle::Overline)
            .finish(),
        "rz-text-overline"
    );
}

#[test]
fn text_align_justify_all_class() {
    let css = ClassList::new()
        .add_text_style(TextStyle::Caption)
        .add_text_align(TextAlign::JustifyAll)
        .finish();
    assert_eq!(css, "rz-text-caption rz-text-align-justify-all");
}

/// All seven TextAlign values.
#[test]
fn text_align_all_variants() {
    assert_eq!(TextAlign::Center.css_class(), Some("rz-text-align-center"));
    assert_eq!(TextAlign::End.css_class(), Some("rz-text-align-end"));
    assert_eq!(
        TextAlign::Justify.css_class(),
        Some("rz-text-align-justify")
    );
    assert_eq!(TextAlign::Start.css_class(), Some("rz-text-align-start"));
    assert_eq!(TextAlign::Left.css_class(), None);
    assert_eq!(TextAlign::Right.css_class(), Some("rz-text-align-right"));
    assert_eq!(
        TextAlign::JustifyAll.css_class(),
        Some("rz-text-align-justify-all")
    );
}

/// All 19 TextStyle CSS classes.
#[test]
fn text_style_all_classes() {
    let cases = [
        (TextStyle::DisplayH1, "rz-text-display-h1"),
        (TextStyle::DisplayH2, "rz-text-display-h2"),
        (TextStyle::DisplayH3, "rz-text-display-h3"),
        (TextStyle::DisplayH4, "rz-text-display-h4"),
        (TextStyle::DisplayH5, "rz-text-display-h5"),
        (TextStyle::DisplayH6, "rz-text-display-h6"),
        (TextStyle::H1, "rz-text-h1"),
        (TextStyle::H2, "rz-text-h2"),
        (TextStyle::H3, "rz-text-h3"),
        (TextStyle::H4, "rz-text-h4"),
        (TextStyle::H5, "rz-text-h5"),
        (TextStyle::H6, "rz-text-h6"),
        (TextStyle::Subtitle1, "rz-text-subtitle1"),
        (TextStyle::Subtitle2, "rz-text-subtitle2"),
        (TextStyle::Body1, "rz-text-body1"),
        (TextStyle::Body2, "rz-text-body2"),
        (TextStyle::Button, "rz-text-button"),
        (TextStyle::Caption, "rz-text-caption"),
        (TextStyle::Overline, "rz-text-overline"),
    ];
    for (style, expected) in cases {
        assert_eq!(style.css_class(), expected, "failed for {:?}", style);
    }
}

#[test]
fn tag_name_auto_is_none() {
    assert_eq!(TagName::Auto.as_str(), None);
    assert_eq!(TagName::Div.as_str(), Some("div"));
    assert_eq!(TagName::Span.as_str(), Some("span"));
    assert_eq!(TagName::P.as_str(), Some("p"));
    assert_eq!(TagName::H1.as_str(), Some("h1"));
    assert_eq!(TagName::H6.as_str(), Some("h6"));
    assert_eq!(TagName::A.as_str(), Some("a"));
    assert_eq!(TagName::Button.as_str(), Some("button"));
    assert_eq!(TagName::Pre.as_str(), Some("pre"));
}

#[test]
fn text_style_auto_tags() {
    assert_eq!(TextStyle::DisplayH1.auto_tag(), "h1");
    assert_eq!(TextStyle::DisplayH6.auto_tag(), "h6");
    assert_eq!(TextStyle::H1.auto_tag(), "h1");
    assert_eq!(TextStyle::H6.auto_tag(), "h6");
    assert_eq!(TextStyle::Subtitle1.auto_tag(), "h6");
    assert_eq!(TextStyle::Subtitle2.auto_tag(), "h6");
    assert_eq!(TextStyle::Body1.auto_tag(), "p");
    assert_eq!(TextStyle::Body2.auto_tag(), "p");
    assert_eq!(TextStyle::Button.auto_tag(), "span");
    assert_eq!(TextStyle::Caption.auto_tag(), "span");
    assert_eq!(TextStyle::Overline.auto_tag(), "span");
}

// ── Shade::css_class canonical values ────────────────────────────────────

#[test]
fn shade_css_class_all_variants() {
    assert_eq!(Shade::Lighter.css_class(), "rz-shade-lighter");
    assert_eq!(Shade::Light.css_class(), "rz-shade-light");
    assert_eq!(Shade::Default.css_class(), "rz-shade-default");
    assert_eq!(Shade::Dark.css_class(), "rz-shade-dark");
    assert_eq!(Shade::Darker.css_class(), "rz-shade-darker");
}
