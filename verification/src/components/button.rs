//! What the button does: its class, when it is disabled, and the guard that
//! keeps a click from starting while the previous one runs.

use crate::components::alert::caller_view;
use crate::components::renderer::class_list::{
    button_size_class, button_style_class, class_if, class_string, lemma_add_class_if,
    lemma_created, lemma_push_same, variant_class,
};
use crate::components::{ButtonSize, ButtonStyle, ClassList, Shade, Variant};
use crate::text::{is_blank, str_is_blank};
use vstd::prelude::*;

verus! {

/// The button's class: size, variant, style, the disabled state, shade,
/// `rz-button-icon-only` when it has an icon and no text, then the caller's
/// class.
pub open spec fn button_class(
    size: ButtonSize,
    variant: Variant,
    style: ButtonStyle,
    disabled: bool,
    shade: Shade,
    icon_only: bool,
    caller: Seq<char>,
) -> Seq<char> {
    class_string(
        seq![
            "rz-button"@,
            button_size_class(size),
            variant_class(variant),
            button_style_class(style),
            class_if(disabled, "rz-state-disabled"@),
            shade.class_of(),
            class_if(icon_only, "rz-button-icon-only"@),
            caller,
        ],
    )
}

/// The button's class; `disabled` is the button's disabled state (disabled
/// or busy), and it shows only an icon when its text is blank and it has one.
pub fn button_css_class(
    size: ButtonSize,
    variant: Variant,
    style: ButtonStyle,
    disabled: bool,
    shade: Shade,
    text: &str,
    has_icon: bool,
    caller: Option<&str>,
) -> (s: String)
    ensures
        s@ == button_class(
            size,
            variant,
            style,
            disabled,
            shade,
            is_blank(text@) && has_icon,
            caller_view(caller),
        ),
{
    let icon_only = str_is_blank(text) && has_icon;
    let l0 = ClassList::create("rz-button");
    let l1 = l0.add_button_size(size);
    let l2 = l1.add_variant(variant);
    let l3 = l2.add_button_style(style);
    let l4 = l3.add_disabled(disabled);
    let l5 = l4.add_shade(shade);
    let l6 = l5.add("rz-button-icon-only", icon_only);
    let l7 = l6.add_caller_class(caller);
    proof {
        reveal_strlit("rz-button");
        reveal_strlit("rz-state-disabled");
        reveal_strlit("rz-button-icon-only");
        lemma_created("rz-button"@);
        lemma_created("rz-state-disabled"@);
        let p0 = seq!["rz-button"@];
        lemma_push_same(l0@, p0, button_size_class(size));
        let p1 = p0.push(button_size_class(size));
        lemma_push_same(l1@, p1, variant_class(variant));
        let p2 = p1.push(variant_class(variant));
        lemma_push_same(l2@, p2, button_style_class(style));
        let p3 = p2.push(button_style_class(style));
        lemma_add_class_if(l3@, p3, "rz-state-disabled"@, disabled);
        let p4 = p3.push(class_if(disabled, "rz-state-disabled"@));
        lemma_push_same(l4@, p4, shade.class_of());
        let p5 = p4.push(shade.class_of());
        lemma_add_class_if(l5@, p5, "rz-button-icon-only"@, icon_only);
        let p6 = p5.push(class_if(icon_only, "rz-button-icon-only"@));
        lemma_add_class_if(l6@, p6, caller_view(caller), true);
        assert(p6.push(class_if(true, caller_view(caller))) =~= seq![
            "rz-button"@,
            button_size_class(size),
            variant_class(variant),
            button_style_class(style),
            class_if(disabled, "rz-state-disabled"@),
            shade.class_of(),
            class_if(icon_only, "rz-button-icon-only"@),
            caller_view(caller),
        ]);
    }
    l7.finish()
}

/// A button is disabled while it is disabled or busy.
pub fn button_disabled(disabled: bool, is_busy: bool) -> (r: bool)
    ensures
        r == (disabled || is_busy),
{
    disabled || is_busy
}

/// What a click on the button does.
#[derive(Clone, Copy, Debug, PartialEq, Eq, Structural)]
pub struct ClickStart {
    /// The click handler runs.
    pub run: bool,
    /// A click runs after this one: later clicks are ignored until it ends.
    pub clicking: bool,
}

/// A click: ignored while the button is disabled or a previous click runs;
/// otherwise the handler, if any, runs, and the button counts as clicking
/// until it ends.
pub fn button_click(is_disabled: bool, clicking: bool, has_handler: bool) -> (r: ClickStart)
    ensures
        is_disabled || clicking ==> r == (ClickStart { run: false, clicking }),
        !(is_disabled || clicking) ==> r == (ClickStart { run: has_handler, clicking: has_handler }),
{
    if is_disabled || clicking {
        return ClickStart { run: false, clicking };
    }
    ClickStart { run: has_handler, clicking: has_handler }
}

/// Whether the button shows its text: when it is not blank.
pub fn shows_text(text: &str) -> (r: bool)
    ensures
        r == !is_blank(text@),
{
    !str_is_blank(text)
}

/// While a click runs, another click neither runs nor ends the first.
pub proof fn lemma_click_guard(is_disabled: bool, has_handler: bool)
    ensures
        ({
            let first = if is_disabled {
                ClickStart { run: false, clicking: false }
            } else {
                ClickStart { run: has_handler, clicking: has_handler }
            };
            first.run ==> first.clicking
        }),
{
}

} // verus!
