//! The rules of the `radzen_component` attribute: the base properties that
//! it adds to every component, and the component signatures it refuses.

use crate::text::{push_str, str_equals, views};
use vstd::prelude::*;

verus! {

/// The base properties that the attribute adds to a component, in order.
pub open spec fn base_prop_names() -> Seq<Seq<char>> {
    seq![
        "style"@,
        "visible"@,
        "id"@,
        "attrs"@,
        "locale"@,
        "on_mouse_enter"@,
        "on_mouse_leave"@,
        "on_context_menu"@,
    ]
}

/// The base properties that the attribute adds to a component, in order.
pub fn base_prop_list() -> (v: Vec<&'static str>)
    ensures
        v@.map_values(|s: &'static str| s@) == base_prop_names(),
{
    let v = vec![
        "style",
        "visible",
        "id",
        "attrs",
        "locale",
        "on_mouse_enter",
        "on_mouse_leave",
        "on_context_menu",
    ];
    assert(v@.map_values(|s: &'static str| s@) =~= base_prop_names());
    v
}

/// Whether a parameter name is one of the base properties.
pub fn is_base_prop_name(name: &str) -> (r: bool)
    ensures
        r == base_prop_names().contains(name@),
{
    let names = base_prop_list();
    let mut i: usize = 0;
    while i < names.len()
        invariant
            i <= names.len(),
            names@.map_values(|s: &'static str| s@) == base_prop_names(),
            forall|j: int| 0 <= j < i ==> base_prop_names()[j] != name@,
        decreases names.len() - i,
    {
        assert(base_prop_names()[i as int] == names@[i as int]@);
        if str_equals(names[i], name) {
            return true;
        }
        i = i + 1;
    }
    proof {
        if base_prop_names().contains(name@) {
            let k = choose|k: int| 0 <= k < base_prop_names().len() && base_prop_names()[k] == name@;
            assert(base_prop_names()[k] != name@);
        }
    }
    false
}

/// Why the attribute refuses a component.
#[derive(Clone, Debug)]
pub enum ComponentMacroError {
    /// The function also carries `#[component]`, which the attribute adds.
    ComponentAttribute,
    /// A parameter has the name of a base property.
    ReservedProp(String),
    /// A parameter is named `base`, which the base properties replace.
    BaseProp,
}

/// Whether the attribute refuses a parameter name: a base property or
/// `base`.
pub open spec fn refused_name(name: Seq<char>) -> bool {
    base_prop_names().contains(name) || name == "base"@
}

/// The position of the first refused parameter name.
pub open spec fn first_refused(names: Seq<Seq<char>>) -> Option<int>
    decreases names.len(),
{
    if names.len() == 0 {
        None
    } else {
        match first_refused(names.drop_last()) {
            Some(i) => Some(i),
            None => if refused_name(names.last()) {
                Some(names.len() - 1)
            } else {
                None
            },
        }
    }
}

/// Checks a component for the attribute: refused when one of its attributes
/// is `component`; else refused at its first parameter that is named like a
/// base property (reported with its name) or `base`; else accepted.
pub fn check_component(attributes: &Vec<String>, params: &Vec<String>) -> (r: Result<
    (),
    ComponentMacroError,
>)
    ensures
        views(attributes@).contains("component"@) ==> r matches Err(
            ComponentMacroError::ComponentAttribute,
        ),
        !views(attributes@).contains("component"@) ==> match first_refused(views(params@)) {
            Some(i) => match r {
                Err(ComponentMacroError::ReservedProp(n)) => base_prop_names().contains(
                    params@[i]@,
                ) && n@ == params@[i]@,
                Err(ComponentMacroError::BaseProp) => !base_prop_names().contains(params@[i]@)
                    && params@[i]@ == "base"@,
                _ => false,
            },
            None => r is Ok,
        },
{
    let mut a: usize = 0;
    while a < attributes.len()
        invariant
            a <= attributes.len(),
            forall|j: int| 0 <= j < a ==> attributes@[j]@ != "component"@,
        decreases attributes.len() - a,
    {
        if str_equals(attributes[a].as_str(), "component") {
            assert(views(attributes@)[a as int] == "component"@);
            return Err(ComponentMacroError::ComponentAttribute);
        }
        a = a + 1;
    }
    proof {
        if views(attributes@).contains("component"@) {
            let k = choose|k: int|
                0 <= k < views(attributes@).len() && views(attributes@)[k] == "component"@;
            assert(attributes@[k]@ != "component"@);
        }
    }
    let mut i: usize = 0;
    while i < params.len()
        invariant
            i <= params.len(),
            !views(attributes@).contains("component"@),
            first_refused(views(params@).take(i as int)) is None,
        decreases params.len() - i,
    {
        let ghost ps = views(params@);
        proof {
            assert(ps.take(i + 1).drop_last() =~= ps.take(i as int));
            assert(ps.take(i + 1).last() == params@[i as int]@);
        }
        let name = params[i].as_str();
        if is_base_prop_name(name) {
            proof {
                lemma_first_refused_prefix(ps, i as int);
            }
            return Err(ComponentMacroError::ReservedProp(name.to_owned()));
        }
        if str_equals(name, "base") {
            proof {
                lemma_first_refused_prefix(ps, i as int);
            }
            return Err(ComponentMacroError::BaseProp);
        }
        i = i + 1;
    }
    assert(views(params@).take(params.len() as int) =~= views(params@));
    Ok(())
}

proof fn lemma_first_refused_prefix(names: Seq<Seq<char>>, i: int)
    requires
        0 <= i < names.len(),
        first_refused(names.take(i)) is None,
        refused_name(names[i]),
    ensures
        first_refused(names) == Some(i),
    decreases names.len(),
{
    if i == names.len() - 1 {
        assert(names.drop_last() =~= names.take(i));
    } else {
        assert(names.drop_last().take(i) =~= names.take(i));
        lemma_first_refused_prefix(names.drop_last(), i);
    }
}

/// The compiler error the attribute reports.
pub open spec fn error_text(e: ComponentMacroError) -> Seq<char> {
    match e {
        ComponentMacroError::ComponentAttribute => "#[radzen_component] already emits #[component] — remove the extra #[component]"@,
        ComponentMacroError::ReservedProp(n) => "'"@ + n@
            + "' is a reserved base prop injected by #[radzen_component]. Remove it from the function signature."@,
        ComponentMacroError::BaseProp => "'base: ComponentProps' is no longer needed with #[radzen_component]."@,
    }
}

/// The compiler error the attribute reports.
pub fn error_message(e: &ComponentMacroError) -> (s: String)
    ensures
        s@ == error_text(*e),
{
    match e {
        ComponentMacroError::ComponentAttribute => "#[radzen_component] already emits #[component] — remove the extra #[component]".to_owned(),
        ComponentMacroError::ReservedProp(n) => {
            let mut s = String::new();
            push_str(&mut s, "'");
            push_str(&mut s, n.as_str());
            push_str(
                &mut s,
                "' is a reserved base prop injected by #[radzen_component]. Remove it from the function signature.",
            );
            assert(s@ =~= error_text(*e));
            s
        },
        ComponentMacroError::BaseProp => "'base: ComponentProps' is no longer needed with #[radzen_component].".to_owned(),
    }
}

} // verus!
