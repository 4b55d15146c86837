//! What the alert does: its class, the look of its close button, its style
//! once dismissed, and its icon.

use crate::components::renderer::class_list::{
    class_if, class_string, lemma_add_class_if, lemma_created, lemma_push_same, variant_class,
};
use crate::components::{AlertSize, AlertStyle, ButtonSize, ButtonStyle, ClassList, Shade, Variant};
use crate::text::push_str;
use vstd::prelude::*;

verus! {

/// The alert's class: its size, variant, style and shade, then the caller's
/// class.
pub open spec fn alert_class(
    size: AlertSize,
    variant: Variant,
    style: AlertStyle,
    shade: Shade,
    caller: Seq<char>,
) -> Seq<char> {
    class_string(
        seq![
            "rz-alert"@,
            "rz-alert-"@ + size.suffix_of(),
            variant_class(variant),
            "rz-"@ + style.token_of(),
            shade.class_of(),
            caller,
        ],
    )
}

/// The view of an optional caller class, empty when there is none.
pub open spec fn caller_view(caller: Option<&str>) -> Seq<char> {
    match caller {
        Some(c) => c@,
        None => Seq::empty(),
    }
}

/// The alert's class.
pub fn alert_css_class(
    size: AlertSize,
    variant: Variant,
    style: AlertStyle,
    shade: Shade,
    caller: Option<&str>,
) -> (s: String)
    ensures
        s@ == alert_class(size, variant, style, shade, caller_view(caller)),
{
    let mut size_class = String::new();
    push_str(&mut size_class, "rz-alert-");
    push_str(&mut size_class, size.css_suffix());
    let mut style_class = String::new();
    push_str(&mut style_class, "rz-");
    push_str(&mut style_class, style.as_str());
    let l0 = ClassList::create("rz-alert");
    let l1 = l0.add_class(size_class.as_str());
    let l2 = l1.add_variant(variant);
    let l3 = l2.add_class(style_class.as_str());
    let l4 = l3.add_shade(shade);
    let l5 = l4.add_caller_class(caller);
    proof {
        reveal_strlit("rz-alert");
        reveal_strlit("rz-alert-");
        reveal_strlit("rz-");
        lemma_created("rz-alert"@);
        let p0 = seq!["rz-alert"@];
        lemma_add_class_if(l0@, p0, size_class@, true);
        let p1 = p0.push(class_if(true, size_class@));
        lemma_push_same(l1@, p1, variant_class(variant));
        let p2 = p1.push(variant_class(variant));
        lemma_add_class_if(l2@, p2, style_class@, true);
        let p3 = p2.push(class_if(true, style_class@));
        lemma_push_same(l3@, p3, shade.class_of());
        let p4 = p3.push(shade.class_of());
        lemma_add_class_if(l4@, p4, caller_view(caller), true);
        assert(p4.push(class_if(true, caller_view(caller))) =~= seq![
            "rz-alert"@,
            "rz-alert-"@ + size.suffix_of(),
            variant_class(variant),
            "rz-"@ + style.token_of(),
            shade.class_of(),
            caller_view(caller),
        ]);
    }
    l5.finish()
}

/// The close button is extra small on an extra small alert, else small.
pub fn close_button_size(size: AlertSize) -> (r: ButtonSize)
    ensures
        r == match size {
            AlertSize::ExtraSmall => ButtonSize::ExtraSmall,
            _ => ButtonSize::Small,
        },
{
    match size {
        AlertSize::ExtraSmall => ButtonSize::ExtraSmall,
        _ => ButtonSize::Small,
    }
}

/// Whether a shade is light or lighter.
pub open spec fn is_light_shade(shade: Shade) -> bool {
    shade == Shade::Light || shade == Shade::Lighter
}

/// The close button is darker on a light or lighter alert, else default.
pub fn close_button_shade(shade: Shade) -> (r: Shade)
    ensures
        r == if is_light_shade(shade) {
            Shade::Darker
        } else {
            Shade::Default
        },
{
    match shade {
        Shade::Light | Shade::Lighter => Shade::Darker,
        _ => Shade::Default,
    }
}

/// The style of the close button: on a light or lighter alert it matches the
/// alert's style (dark on light and base alerts, light on dark ones);
/// otherwise it is dark on light and base alerts and light on the others.
pub open spec fn close_style(shade: Shade, style: AlertStyle) -> ButtonStyle {
    if is_light_shade(shade) {
        match style {
            AlertStyle::Success => ButtonStyle::Success,
            AlertStyle::Danger => ButtonStyle::Danger,
            AlertStyle::Warning => ButtonStyle::Warning,
            AlertStyle::Info => ButtonStyle::Info,
            AlertStyle::Primary => ButtonStyle::Primary,
            AlertStyle::Secondary => ButtonStyle::Secondary,
            AlertStyle::Light | AlertStyle::Base => ButtonStyle::Dark,
            AlertStyle::Dark => ButtonStyle::Light,
        }
    } else {
        match style {
            AlertStyle::Light | AlertStyle::Base => ButtonStyle::Dark,
            _ => ButtonStyle::Light,
        }
    }
}

/// The style of the close button.
pub fn close_button_style(shade: Shade, style: AlertStyle) -> (r: ButtonStyle)
    ensures
        r == close_style(shade, style),
{
    let light = match shade {
        Shade::Light | Shade::Lighter => true,
        _ => false,
    };
    if light {
        match style {
            AlertStyle::Success => ButtonStyle::Success,
            AlertStyle::Danger => ButtonStyle::Danger,
            AlertStyle::Warning => ButtonStyle::Warning,
            AlertStyle::Info => ButtonStyle::Info,
            AlertStyle::Primary => ButtonStyle::Primary,
            AlertStyle::Secondary => ButtonStyle::Secondary,
            AlertStyle::Light | AlertStyle::Base => ButtonStyle::Dark,
            AlertStyle::Dark => ButtonStyle::Light,
        }
    } else {
        match style {
            AlertStyle::Light | AlertStyle::Base => ButtonStyle::Dark,
            _ => ButtonStyle::Light,
        }
    }
}

/// The alert's style attribute: the caller's style while shown; once
/// dismissed, `display:none` before it.
pub open spec fn alert_style(visible: bool, caller: Seq<char>) -> Seq<char> {
    if visible {
        caller
    } else if caller.len() == 0 {
        "display:none"@
    } else {
        "display:none; "@ + caller
    }
}

/// The alert's style attribute.
pub fn alert_style_attr(visible: bool, caller_style: &str) -> (s: String)
    ensures
        s@ == alert_style(visible, caller_style@),
{
    if visible {
        caller_style.to_owned()
    } else if caller_style.is_empty() {
        "display:none".to_owned()
    } else {
        let mut s = String::new();
        push_str(&mut s, "display:none; ");
        push_str(&mut s, caller_style);
        proof {
            reveal_strlit("display:none; ");
            assert(s@ =~= "display:none; "@ + caller_style@);
        }
        s
    }
}

/// The alert's icon: the one given, else the style's icon.
pub fn alert_icon(icon: Option<&str>, style: AlertStyle) -> (s: String)
    ensures
        s@ == match icon {
            Some(i) => i@,
            None => style.icon_of(),
        },
{
    match icon {
        Some(i) => i.to_owned(),
        None => style.default_icon().to_owned(),
    }
}

} // verus!
