//! The stack's class and the style that lays out its children.

use crate::components::alert::caller_view;
use crate::components::renderer::class_list::{
    class_if, class_string, lemma_add_class_if, lemma_created,
};
use crate::components::{AlignItems, ClassList, FlexWrap, JustifyContent, Orientation};
use crate::text::{push_str, trim, trim_str};
use vstd::prelude::*;

verus! {

/// The stack's class: `rz-stack`, then the caller's class.
pub fn stack_css_class(caller: Option<&str>) -> (s: String)
    ensures
        s@ == class_string(seq!["rz-stack"@, caller_view(caller)]),
{
    let l0 = ClassList::create("rz-stack");
    let l1 = l0.add_caller_class(caller);
    proof {
        reveal_strlit("rz-stack");
        lemma_created("rz-stack"@);
        let p0 = seq!["rz-stack"@];
        lemma_add_class_if(l0@, p0, caller_view(caller), true);
        assert(p0.push(class_if(true, caller_view(caller))) =~= seq![
            "rz-stack"@,
            caller_view(caller),
        ]);
    }
    l1.finish()
}

/// The flex direction of the stack: a row when horizontal, a column when
/// vertical, reversed when asked.
pub open spec fn direction_of(o: Orientation, reverse: bool) -> Seq<char> {
    match (o, reverse) {
        (Orientation::Horizontal, false) => "row"@,
        (Orientation::Horizontal, true) => "row-reverse"@,
        (Orientation::Vertical, false) => "column"@,
        (Orientation::Vertical, true) => "column-reverse"@,
    }
}

/// Reversing a stack reverses its direction: the reversed direction is the
/// plain one followed by `-reverse`, for both orientations, and the two
/// orientations give different directions.
pub proof fn lemma_reverse_direction(o: Orientation)
    ensures
        direction_of(o, true) == direction_of(o, false) + "-reverse"@,
        direction_of(Orientation::Horizontal, false) != direction_of(Orientation::Vertical, false),
{
    reveal_strlit("row");
    reveal_strlit("row-reverse");
    reveal_strlit("column");
    reveal_strlit("column-reverse");
    reveal_strlit("-reverse");
    assert(direction_of(o, true) =~= direction_of(o, false) + "-reverse"@);
    assert(direction_of(Orientation::Horizontal, false)[0] != direction_of(Orientation::Vertical, false)[0]);
}

/// The flex direction of the stack.
pub fn flex_direction(o: &Orientation, reverse: bool) -> (s: &'static str)
    ensures
        s@ == direction_of(*o, reverse),
{
    match (o, reverse) {
        (Orientation::Horizontal, false) => "row",
        (Orientation::Horizontal, true) => "row-reverse",
        (Orientation::Vertical, false) => "column",
        (Orientation::Vertical, true) => "column-reverse",
    }
}

/// ` {name}: {value};` when there is a value.
pub open spec fn declaration(name: Seq<char>, value: Option<Seq<char>>) -> Seq<char> {
    match value {
        Some(v) => " "@ + name + ": "@ + v + ";"@,
        None => Seq::empty(),
    }
}

/// The stack's style: `display: flex` in its direction, then the gap when it
/// is not blank (trimmed), the alignment, justification and wrapping when
/// they are emitted, then the caller's style after a space.
pub open spec fn stack_style_of(
    o: Orientation,
    reverse: bool,
    gap: Option<Seq<char>>,
    align: AlignItems,
    justify: JustifyContent,
    wrap: FlexWrap,
    caller: Seq<char>,
) -> Seq<char> {
    let gap_value = match gap {
        Some(g) => if trim(g).len() > 0 {
            Some(trim(g))
        } else {
            None
        },
        None => None,
    };
    let own = "display: flex; flex-direction: "@ + direction_of(o, reverse) + ";"@ + declaration(
        "gap"@,
        gap_value,
    ) + declaration("align-items"@, align.value_of()) + declaration(
        "justify-content"@,
        justify.value_of(),
    ) + declaration("flex-wrap"@, wrap.value_of());
    if caller.len() == 0 {
        own
    } else {
        own + " "@ + caller
    }
}

fn push_declaration(s: &mut String, name: &str, value: Option<&str>)
    ensures
        final(s)@ == old(s)@ + declaration(
            name@,
            match value {
                Some(v) => Some(v@),
                None => None,
            },
        ),
{
    match value {
        Some(v) => {
            push_str(s, " ");
            push_str(s, name);
            push_str(s, ": ");
            push_str(s, v);
            push_str(s, ";");
            proof {
                reveal_strlit(" ");
                reveal_strlit(": ");
                reveal_strlit(";");
                assert(final(s)@ =~= old(s)@ + (" "@ + name@ + ": "@ + v@ + ";"@));
            }
        },
        None => {
            assert(s@ =~= old(s)@ + Seq::<char>::empty());
        },
    }
}

/// The stack's style.
pub fn stack_style(
    o: &Orientation,
    reverse: bool,
    gap: Option<&str>,
    align: &AlignItems,
    justify: &JustifyContent,
    wrap: &FlexWrap,
    caller_style: &str,
) -> (s: String)
    ensures
        s@ == stack_style_of(
            *o,
            reverse,
            match gap {
                Some(g) => Some(g@),
                None => None,
            },
            *align,
            *justify,
            *wrap,
            caller_style@,
        ),
{
    let mut s = String::new();
    push_str(&mut s, "display: flex; flex-direction: ");
    push_str(&mut s, flex_direction(o, reverse));
    push_str(&mut s, ";");
    let trimmed: Option<String> = match gap {
        Some(g) => {
            let t = trim_str(g);
            if t.as_str().is_empty() {
                None
            } else {
                Some(t)
            }
        },
        None => None,
    };
    match &trimmed {
        Some(t) => push_declaration(&mut s, "gap", Some(t.as_str())),
        None => push_declaration(&mut s, "gap", None),
    }
    push_declaration(&mut s, "align-items", align.css_value());
    push_declaration(&mut s, "justify-content", justify.css_value());
    push_declaration(&mut s, "flex-wrap", wrap.css_value());
    if !caller_style.is_empty() {
        push_str(&mut s, " ");
        push_str(&mut s, caller_style);
    }
    proof {
        reveal_strlit("display: flex; flex-direction: ");
        reveal_strlit(";");
        reveal_strlit(" ");
        reveal_strlit("gap");
        reveal_strlit("align-items");
        reveal_strlit("justify-content");
        reveal_strlit("flex-wrap");
    }
    assert(s@ =~= stack_style_of(
        *o,
        reverse,
        match gap {
            Some(g) => Some(g@),
            None => None,
        },
        *align,
        *justify,
        *wrap,
        caller_style@,
    ));
    s
}

} // verus!
