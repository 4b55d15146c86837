//! Fluent CSS class builder.
//!
//! `create(root)` starts a list with the component's root class, each `add*`
//! call appends one class when it applies, and `finish` joins the classes with
//! single spaces. Blank classes are never kept. The caller's own `class`
//! attribute goes last, through `add_caller_class`.

use crate::components::{
    BadgeStyle, ButtonSize, ButtonStyle, IconStyle, Shade, TextAlign, TextStyle, Variant,
};
use crate::text::{
    is_ws, is_blank, join_with_spaces, join_words, kept, not_blank, lemma_first_char_not_blank, lemma_kept_push,
    push_str, str_is_blank, views,
};
use std::collections::HashMap;
use vstd::prelude::*;

verus! {

/// Fluent builder for CSS class strings.
pub struct ClassList {
    classes: Vec<String>,
}

impl View for ClassList {
    type V = Seq<Seq<char>>;

    /// The classes added so far, in order.
    closed spec fn view(&self) -> Seq<Seq<char>> {
        views(self.classes@)
    }
}

/// The class of a button size.
pub open spec fn button_size_class(size: ButtonSize) -> Seq<char> {
    match size {
        ButtonSize::ExtraSmall => "rz-button-xs"@,
        ButtonSize::Small => "rz-button-sm"@,
        ButtonSize::Medium => "rz-button-md"@,
        ButtonSize::Large => "rz-button-lg"@,
    }
}

/// The class of a variant.
pub open spec fn variant_class(variant: Variant) -> Seq<char> {
    match variant {
        Variant::Filled => "rz-variant-filled"@,
        Variant::Flat => "rz-variant-flat"@,
        Variant::Outlined => "rz-variant-outlined"@,
        Variant::Text => "rz-variant-text"@,
    }
}

/// The class of a button style: `rz-{token}`.
pub open spec fn button_style_class(style: ButtonStyle) -> Seq<char> {
    "rz-"@ + style.token_of()
}

/// The class of a badge style: `rz-badge-{token}`.
pub open spec fn badge_style_class(style: BadgeStyle) -> Seq<char> {
    "rz-badge-"@ + style.token_of()
}

/// The class of an icon style: `rzi-{token}`.
pub open spec fn icon_style_class(style: IconStyle) -> Seq<char> {
    "rzi-"@ + style.token_of()
}

/// The value of the `class` key of an attribute map, if it has one.
pub open spec fn attrs_class(attrs: Map<Seq<char>, Seq<char>>) -> Option<Seq<char>> {
    if attrs.contains_key("class"@) {
        Some(attrs["class"@])
    } else {
        None
    }
}

/// Looks up the `class` key of an attribute map (`HashMap::get`).
#[verifier::external_body]
fn get_class_attr(attrs: &HashMap<String, String>) -> (r: Option<&String>)
    ensures
        match r {
            Some(v) => attrs_class(attrs.deep_view()) == Some(v@),
            None => attrs_class(attrs.deep_view()) is None,
        },
{
    attrs.get("class")
}

impl Default for ClassList {
    fn default() -> (r: Self)
        ensures
            r@ == Seq::<Seq<char>>::empty(),
    {
        ClassList::new()
    }
}

impl ClassList {
    /// Start a new empty builder.
    pub fn new() -> (r: Self)
        ensures
            r@ == Seq::<Seq<char>>::empty(),
    {
        let r = ClassList { classes: Vec::new() };
        assert(r@ =~= Seq::<Seq<char>>::empty());
        r
    }

    /// Start a builder with a root class; a blank root is ignored.
    pub fn create(root: &str) -> (r: Self)
        ensures
            r@ == if is_blank(root@) {
                Seq::<Seq<char>>::empty()
            } else {
                seq![root@]
            },
    {
        let list = Self::new();
        list.add(root, true)
    }

    /// Add a class when `condition` holds and the class is not blank.
    pub fn add(self, class: &str, condition: bool) -> (r: Self)
        ensures
            r@ == if condition && !is_blank(class@) {
                self@.push(class@)
            } else {
                self@
            },
    {
        let mut list = self;
        if condition {
            if !str_is_blank(class) {
                list.classes.push(class.to_owned());
                assert(list@ =~= self@.push(class@));
            }
        }
        list
    }

    /// Add a class unconditionally (unless it is blank).
    pub fn add_class(self, class: &str) -> (r: Self)
        ensures
            r@ == if !is_blank(class@) {
                self@.push(class@)
            } else {
                self@
            },
    {
        self.add(class, true)
    }

    /// Add a class if the option is `Some` and not blank.
    pub fn add_option(self, class: Option<&str>) -> (r: Self)
        ensures
            r@ == match class {
                Some(c) => if !is_blank(c@) {
                    self@.push(c@)
                } else {
                    self@
                },
                None => self@,
            },
    {
        match class {
            Some(c) => self.add_class(c),
            None => self,
        }
    }

    /// Merge the `"class"` key from an attribute map.
    pub fn add_from_attrs(self, attrs: &HashMap<String, String>) -> (r: Self)
        ensures
            r@ == match attrs_class(attrs.deep_view()) {
                Some(c) => if !is_blank(c) {
                    self@.push(c)
                } else {
                    self@
                },
                None => self@,
            },
    {
        match get_class_attr(attrs) {
            Some(c) => self.add_class(c.as_str()),
            None => self,
        }
    }

    /// Append the caller-supplied class; call it last so that it comes last.
    pub fn add_caller_class(self, class: Option<&str>) -> (r: Self)
        ensures
            r@ == match class {
                Some(c) => if !is_blank(c@) {
                    self@.push(c@)
                } else {
                    self@
                },
                None => self@,
            },
    {
        self.add_option(class)
    }

    /// Add `rz-state-disabled` conditionally.
    pub fn add_disabled(self, condition: bool) -> (r: Self)
        ensures
            r@ == if condition {
                self@.push("rz-state-disabled"@)
            } else {
                self@
            },
    {
        proof {
            reveal_strlit("rz-state-disabled");
            lemma_first_char_not_blank("rz-state-disabled"@);
        }
        self.add("rz-state-disabled", condition)
    }

    /// Add the button size class.
    pub fn add_button_size(self, size: ButtonSize) -> (r: Self)
        ensures
            r@ == self@.push(button_size_class(size)),
    {
        let class = match size {
            ButtonSize::ExtraSmall => "rz-button-xs",
            ButtonSize::Small => "rz-button-sm",
            ButtonSize::Medium => "rz-button-md",
            ButtonSize::Large => "rz-button-lg",
        };
        proof {
            reveal_strlit("rz-button-xs");
            reveal_strlit("rz-button-sm");
            reveal_strlit("rz-button-md");
            reveal_strlit("rz-button-lg");
            lemma_first_char_not_blank(class@);
        }
        self.add_class(class)
    }

    /// Add the variant class.
    pub fn add_variant(self, variant: Variant) -> (r: Self)
        ensures
            r@ == self@.push(variant_class(variant)),
    {
        let class = match variant {
            Variant::Filled => "rz-variant-filled",
            Variant::Flat => "rz-variant-flat",
            Variant::Outlined => "rz-variant-outlined",
            Variant::Text => "rz-variant-text",
        };
        proof {
            reveal_strlit("rz-variant-filled");
            reveal_strlit("rz-variant-flat");
            reveal_strlit("rz-variant-outlined");
            reveal_strlit("rz-variant-text");
            lemma_first_char_not_blank(class@);
        }
        self.add_class(class)
    }

    /// Add the button style (color) class.
    pub fn add_button_style(self, style: ButtonStyle) -> (r: Self)
        ensures
            r@ == self@.push(button_style_class(style)),
    {
        let mut class = String::new();
        push_str(&mut class, "rz-");
        push_str(&mut class, style.token());
        proof {
            reveal_strlit("rz-");
            lemma_first_char_not_blank(class@);
        }
        self.add_class(class.as_str())
    }

    /// Add the shade class (`rz-shade-{value}`).
    pub fn add_shade(self, shade: Shade) -> (r: Self)
        ensures
            r@ == self@.push(shade.class_of()),
    {
        proof {
            reveal_strlit("rz-shade-lighter");
            reveal_strlit("rz-shade-light");
            reveal_strlit("rz-shade-default");
            reveal_strlit("rz-shade-dark");
            reveal_strlit("rz-shade-darker");
            lemma_first_char_not_blank(shade.class_of());
        }
        self.add_class(shade.css_class())
    }

    /// Add the badge style class.
    pub fn add_badge_style(self, style: BadgeStyle) -> (r: Self)
        ensures
            r@ == self@.push(badge_style_class(style)),
    {
        let mut class = String::new();
        push_str(&mut class, "rz-badge-");
        push_str(&mut class, style.as_str());
        proof {
            reveal_strlit("rz-badge-");
            lemma_first_char_not_blank(class@);
        }
        self.add_class(class.as_str())
    }

    /// Add the icon style class, `rzi-{style}`.
    pub fn add_icon_style(self, style: IconStyle) -> (r: Self)
        ensures
            r@ == self@.push(icon_style_class(style)),
    {
        let mut class = String::new();
        push_str(&mut class, "rzi-");
        push_str(&mut class, style.as_str());
        proof {
            reveal_strlit("rzi-");
            lemma_first_char_not_blank(class@);
        }
        self.add_class(class.as_str())
    }

    /// Add the text style class (`rz-text-*`).
    pub fn add_text_style(self, style: TextStyle) -> (r: Self)
        ensures
            r@ == self@.push(style.class_of()),
    {
        let class = style.css_class();
        proof {
            reveal_strlit("rz-text-display-h1");
            reveal_strlit("rz-text-display-h2");
            reveal_strlit("rz-text-display-h3");
            reveal_strlit("rz-text-display-h4");
            reveal_strlit("rz-text-display-h5");
            reveal_strlit("rz-text-display-h6");
            reveal_strlit("rz-text-h1");
            reveal_strlit("rz-text-h2");
            reveal_strlit("rz-text-h3");
            reveal_strlit("rz-text-h4");
            reveal_strlit("rz-text-h5");
            reveal_strlit("rz-text-h6");
            reveal_strlit("rz-text-subtitle1");
            reveal_strlit("rz-text-subtitle2");
            reveal_strlit("rz-text-body1");
            reveal_strlit("rz-text-body2");
            reveal_strlit("rz-text-button");
            reveal_strlit("rz-text-caption");
            reveal_strlit("rz-text-overline");
            lemma_first_char_not_blank(class@);
        }
        self.add_class(class)
    }

    /// Add the text alignment class; `TextAlign::Left` adds none.
    pub fn add_text_align(self, align: TextAlign) -> (r: Self)
        ensures
            r@ == match align.class_of() {
                Some(c) => self@.push(c),
                None => self@,
            },
    {
        match align.css_class() {
            Some(class) => {
                proof {
                    reveal_strlit("rz-text-align-center");
                    reveal_strlit("rz-text-align-end");
                    reveal_strlit("rz-text-align-justify");
                    reveal_strlit("rz-text-align-start");
                    reveal_strlit("rz-text-align-right");
                    reveal_strlit("rz-text-align-justify-all");
                    lemma_first_char_not_blank(class@);
                }
                self.add_class(class)
            },
            None => self,
        }
    }

    /// Joins the non-blank classes with single spaces.
    fn joined(&self) -> (s: String)
        ensures
            s@ == join_words(kept(self@)),
    {
        let mut keep: Vec<String> = Vec::new();
        let n = self.classes.len();
        let mut i: usize = 0;
        while i < n
            invariant
                n == self.classes.len(),
                i <= n,
                views(keep@) == kept(views(self.classes@).take(i as int)),
            decreases n - i,
        {
            proof {
                let t = views(self.classes@).take(i as int);
                assert(views(self.classes@).take(i + 1) =~= t.push(self.classes@[i as int]@));
                lemma_kept_push(t, self.classes@[i as int]@);
            }
            let ghost before = keep@;
            if !str_is_blank(self.classes[i].as_str()) {
                keep.push(self.classes[i].clone());
                assert(views(keep@) =~= views(before).push(self.classes@[i as int]@));
            }
            i = i + 1;
        }
        assert(views(self.classes@).take(n as int) =~= views(self.classes@));
        join_with_spaces(&keep)
    }

    /// Build the final space-joined class string.
    pub fn finish(self) -> (s: String)
        ensures
            s@ == join_words(kept(self@)),
    {
        self.joined()
    }

    /// The space-joined class string, without consuming the builder.
    pub fn to_string(&self) -> (s: String)
        ensures
            s@ == join_words(kept(self@)),
    {
        self.joined()
    }
}

/// `c` when `cond` holds, else the empty string (which a class list drops).
pub open spec fn class_if(cond: bool, c: Seq<char>) -> Seq<char> {
    if cond {
        c
    } else {
        Seq::empty()
    }
}

/// The class attribute made of the non-blank strings of `parts`, in order,
/// joined by single spaces.
pub open spec fn class_string(parts: Seq<Seq<char>>) -> Seq<char> {
    join_words(kept(parts))
}

/// One `add(c, cond)` step: a list that keeps the same classes as `parts`
/// keeps, after the step, the same classes as `parts` followed by
/// `class_if(cond, c)`.
pub proof fn lemma_add_class_if(list: Seq<Seq<char>>, parts: Seq<Seq<char>>, c: Seq<char>, cond: bool)
    requires
        kept(list) == kept(parts),
    ensures
        kept(
            if cond && !is_blank(c) {
                list.push(c)
            } else {
                list
            },
        ) == kept(parts.push(class_if(cond, c))),
{
    lemma_kept_push(list, c);
    lemma_kept_push(parts, class_if(cond, c));
}

/// Pushing the same class onto two lists that keep the same classes keeps
/// them keeping the same classes.
pub proof fn lemma_push_same(list: Seq<Seq<char>>, parts: Seq<Seq<char>>, c: Seq<char>)
    requires
        kept(list) == kept(parts),
    ensures
        kept(list.push(c)) == kept(parts.push(c)),
{
    lemma_kept_push(list, c);
    lemma_kept_push(parts, c);
}

/// A list created from a literal root class keeps exactly that class.
pub proof fn lemma_created(root: Seq<char>)
    requires
        root.len() > 0,
        !is_ws(root[0]),
    ensures
        kept(seq![root]) == seq![root],
        !is_blank(root),
{
    lemma_kept_push(Seq::empty(), root);
    assert(Seq::<Seq<char>>::empty().push(root) =~= seq![root]);
    reveal_with_fuel(Seq::filter, 1);
}

/// Joining a list extended by one string puts that string last, after a
/// single space when the list was not empty.
pub proof fn lemma_join_push(parts: Seq<Seq<char>>, c: Seq<char>)
    ensures
        join_words(parts.push(c)) == if parts.len() == 0 {
            c
        } else {
            join_words(parts) + seq![' '] + c
        },
{
    assert(parts.push(c).drop_last() =~= parts);
}

/// A joined list of strings starts with its first string.
pub proof fn lemma_join_starts_with_first(parts: Seq<Seq<char>>)
    requires
        parts.len() > 0,
    ensures
        join_words(parts).len() >= parts[0].len(),
        join_words(parts).subrange(0, parts[0].len() as int) == parts[0],
    decreases parts.len(),
{
    if parts.len() > 1 {
        lemma_join_starts_with_first(parts.drop_last());
        let j = join_words(parts.drop_last());
        assert((j + seq![' '] + parts.last()).subrange(0, parts[0].len() as int) =~= j.subrange(
            0,
            parts[0].len() as int,
        ));
    }
}

/// Every string of `kept(parts)` is non-blank, hence non-empty.
pub proof fn lemma_kept_not_blank(parts: Seq<Seq<char>>)
    ensures
        forall|i: int| 0 <= i < kept(parts).len() ==> #[trigger] not_blank(kept(parts)[i]),
{
    assert forall|i: int| 0 <= i < kept(parts).len() implies #[trigger] not_blank(
        kept(parts)[i],
    ) by {
        parts.lemma_filter_pred(|c: Seq<char>| not_blank(c), i);
    }
}

/// The caller's class comes last: finishing a list whose last added class is
/// the caller's (non-blank) class gives a string that ends with that class,
/// after a single space when other classes came before it.
pub proof fn lemma_caller_class_last(classes: Seq<Seq<char>>, caller: Seq<char>)
    requires
        not_blank(caller),
    ensures
        join_words(kept(classes.push(caller))) == if kept(classes).len() == 0 {
            caller
        } else {
            join_words(kept(classes)) + seq![' '] + caller
        },
        ({
            let out = join_words(kept(classes.push(caller)));
            out.len() >= caller.len() && out.subrange(out.len() - caller.len(), out.len() as int)
                == caller
        }),
{
    lemma_kept_push(classes, caller);
    lemma_join_push(kept(classes), caller);
    let out = join_words(kept(classes.push(caller)));
    if kept(classes).len() != 0 {
        let j = join_words(kept(classes));
        assert((j + seq![' '] + caller).subrange(out.len() - caller.len(), out.len() as int)
            =~= caller);
    } else {
        assert(out.subrange(0, out.len() as int) =~= out);
    }
}

/// The root class comes first: a list created with a non-blank root finishes
/// with a string that starts with the root.
pub proof fn lemma_root_class_first(root: Seq<char>, rest: Seq<Seq<char>>)
    requires
        not_blank(root),
    ensures
        ({
            let out = join_words(kept(seq![root] + rest));
            out.len() >= root.len() && out.subrange(0, root.len() as int) == root
        }),
    decreases rest.len(),
{
    let all = seq![root] + rest;
    if rest.len() == 0 {
        assert(all =~= seq![root]);
        lemma_kept_push(Seq::<Seq<char>>::empty(), root);
        assert(Seq::<Seq<char>>::empty().push(root) =~= seq![root]);
        reveal_with_fuel(Seq::filter, 1);
        assert(kept(Seq::<Seq<char>>::empty()) =~= Seq::<Seq<char>>::empty());
        assert(root.subrange(0, root.len() as int) =~= root);
    } else {
        lemma_root_class_first(root, rest.drop_last());
        assert(all =~= (seq![root] + rest.drop_last()).push(rest.last()));
        lemma_kept_push(seq![root] + rest.drop_last(), rest.last());
        let k = kept(seq![root] + rest.drop_last());
        lemma_join_push(k, rest.last());
        if not_blank(rest.last()) && k.len() > 0 {
            let j = join_words(k);
            assert((j + seq![' '] + rest.last()).subrange(0, root.len() as int) =~= j.subrange(
                0,
                root.len() as int,
            ));
        }
    }
}

/// A finished class string is empty exactly when no non-blank class was
/// added.
pub proof fn lemma_finish_empty_iff_none_kept(classes: Seq<Seq<char>>)
    ensures
        (join_words(kept(classes)).len() == 0) <==> (kept(classes).len() == 0),
{
    lemma_kept_not_blank(classes);
    if kept(classes).len() > 0 {
        lemma_join_starts_with_first(kept(classes));
        assert(not_blank(kept(classes)[0]));
    }
}

} // verus!
