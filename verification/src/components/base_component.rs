//! What every component shares: its class merged with the caller's, its
//! locale, its generated id, and inline styles read into properties and
//! written back.

use crate::components::selection::{first_position, lemma_first_position};
use crate::text::{
    is_trimmed, join_sep, join_strings, lemma_split_concat, lemma_split_pieces_lack_sep,
    lemma_split_without_sep, lemma_trim_facts,
    lemma_trim_leading_space, lemma_trim_trimmed, push_char, push_str, split_at_char, split_pieces,
    str_equals, to_chars, trim, trim_str, views,
};
use vstd::prelude::*;
use vstd::std_specs::cmp::PartialEqSpecImpl;

verus! {

/// The locale that components inherit from an ancestor.
#[derive(Clone, PartialEq, Debug)]
pub struct RadzenLocaleContext(pub String);

/// Implemented by a component's props to give its base class.
pub trait RadzenComponent {
    /// Base CSS class(es) for this component.
    fn component_css_class(&self) -> &'static str;
}

/// The component's class followed by the caller's class, when there is one.
pub fn merge_css_class(component_class: &str, caller_class: &str) -> (s: String)
    ensures
        s@ == if caller_class@.len() == 0 {
            component_class@
        } else {
            component_class@ + " "@ + caller_class@
        },
{
    if caller_class.is_empty() {
        component_class.to_owned()
    } else {
        let mut s = String::new();
        push_str(&mut s, component_class);
        push_str(&mut s, " ");
        push_str(&mut s, caller_class);
        proof {
            reveal_strlit(" ");
            assert(s@ =~= component_class@ + " "@ + caller_class@);
        }
        s
    }
}

/// The locale of a component: its own, else the inherited one, else the
/// system's when the system reports a non-empty tag, else `en-US`.
pub fn resolve_locale(own: Option<&str>, inherited: Option<&str>, system: Option<&str>) -> (s: String)
    ensures
        s@ == match own {
            Some(l) => l@,
            None => match inherited {
                Some(l) => l@,
                None => match system {
                    Some(l) => if l@.len() > 0 {
                        l@
                    } else {
                        "en-US"@
                    },
                    None => "en-US"@,
                },
            },
        },
{
    match own {
        Some(l) => l.to_owned(),
        None => match inherited {
            Some(l) => l.to_owned(),
            None => match system {
                Some(l) => if l.is_empty() {
                    "en-US".to_owned()
                } else {
                    l.to_owned()
                },
                None => "en-US".to_owned(),
            },
        },
    }
}

/// Whether a component is shown: as asked, and by default.
pub fn initially_visible(visible: Option<bool>) -> (r: bool)
    ensures
        r == match visible {
            Some(v) => v,
            None => true,
        },
{
    match visible {
        Some(v) => v,
        None => true,
    }
}

/// The lowercase hexadecimal digit of a number below 16.
pub open spec fn hex_digit(d: nat) -> char {
    if d < 10 {
        ((d + 48) as u8) as char
    } else {
        ((d + 87) as u8) as char
    }
}

/// The last `width` lowercase hexadecimal digits of `n`, zero-padded.
pub open spec fn hex_digits(n: nat, width: nat) -> Seq<char>
    decreases width,
{
    if width == 0 {
        Seq::empty()
    } else {
        hex_digits(n / 16, (width - 1) as nat).push(hex_digit(n % 16))
    }
}

fn push_hex(s: &mut String, n: u64, width: u32)
    requires
        width <= 16,
    ensures
        final(s)@ == old(s)@ + hex_digits(n as nat, width as nat),
    decreases width,
{
    if width == 0 {
        assert(final(s)@ =~= old(s)@ + hex_digits(n as nat, width as nat));
        return;
    }
    push_hex(s, n / 16, width - 1);
    let d: u8 = (n % 16) as u8;
    let c: char = if d < 10 {
        (d + 48u8) as char
    } else {
        (d + 87u8) as char
    };
    push_char(s, c);
    assert(final(s)@ =~= old(s)@ + hex_digits(n as nat, width as nat));
}

/// An id made from a counter: `rz-` and the counter in 16 hexadecimal
/// digits.
pub fn counter_id(n: u64) -> (s: String)
    ensures
        s@ == "rz-"@ + hex_digits(n as nat, 16),
{
    let mut s = String::new();
    push_str(&mut s, "rz-");
    push_hex(&mut s, n, 16);
    proof {
        reveal_strlit("rz-");
    }
    s
}

/// An id made from two random numbers: `rz-` and each number in 8
/// hexadecimal digits.
pub fn random_id(a: u32, b: u32) -> (s: String)
    ensures
        s@ == "rz-"@ + hex_digits(a as nat, 8) + hex_digits(b as nat, 8),
{
    let mut s = String::new();
    push_str(&mut s, "rz-");
    push_hex(&mut s, a as u64, 8);
    push_hex(&mut s, b as u64, 8);
    proof {
        reveal_strlit("rz-");
        assert(s@ =~= "rz-"@ + hex_digits(a as nat, 8) + hex_digits(b as nat, 8));
    }
    s
}

/// The value that `width` hexadecimal digits stand for.
pub open spec fn hex_value(d: Seq<char>) -> nat
    decreases d.len(),
{
    if d.len() == 0 {
        0
    } else {
        hex_value(d.drop_last()) * 16 + digit_value(d.last())
    }
}

/// The value of a lowercase hexadecimal digit.
pub open spec fn digit_value(c: char) -> nat {
    if '0' <= c && c <= '9' {
        ((c as u32) - 48) as nat
    } else {
        ((c as u32) - 87) as nat
    }
}

/// `16` to the power `w`.
pub open spec fn pow16(w: nat) -> nat
    decreases w,
{
    if w == 0 {
        1
    } else {
        16 * pow16((w - 1) as nat)
    }
}

proof fn lemma_hex_value(n: nat, width: nat)
    ensures
        hex_value(hex_digits(n, width)) == n % pow16(width),
        hex_digits(n, width).len() == width,
        pow16(width) > 0,
    decreases width,
{
    if width > 0 {
        lemma_hex_value(n / 16, (width - 1) as nat);
        let d = hex_digits(n, width);
        assert(d.drop_last() =~= hex_digits(n / 16, (width - 1) as nat));
        let p = pow16((width - 1) as nat);
        assert(digit_value(hex_digit(n % 16)) == n % 16);
        vstd::arithmetic::div_mod::lemma_breakdown(n as int, 16, p as int);
    }
}

/// A source of unique ids: a counter that starts at 1 and grows by one per id.
pub struct IdCounter {
    /// The counter value that the next id is made from.
    pub next: u64,
}

impl IdCounter {
    /// A counter whose first id is made from 1.
    pub fn new() -> (c: Self)
        ensures
            c.next == 1,
    {
        IdCounter { next: 1 }
    }

    /// The next id: `rz-` and the counter in 16 hexadecimal digits; the
    /// counter then grows by one.
    pub fn next_id(&mut self) -> (s: String)
        requires
            old(self).next < u64::MAX,
        ensures
            s@ == "rz-"@ + hex_digits(old(self).next as nat, 16),
            final(self).next == old(self).next + 1,
    {
        let s = counter_id(self.next);
        self.next = self.next + 1;
        s
    }
}

/// Different counters give different ids.
pub proof fn lemma_counter_ids_differ(a: u64, b: u64)
    requires
        a != b,
    ensures
        "rz-"@ + hex_digits(a as nat, 16) != "rz-"@ + hex_digits(b as nat, 16),
{
    reveal_strlit("rz-");
    lemma_hex_value(a as nat, 16);
    lemma_hex_value(b as nat, 16);
    assert(pow16(16) == 0x1_0000_0000_0000_0000) by {
        reveal_with_fuel(pow16, 17);
    }
    let x = "rz-"@ + hex_digits(a as nat, 16);
    let y = "rz-"@ + hex_digits(b as nat, 16);
    if x == y {
        assert(x.skip(3) =~= hex_digits(a as nat, 16));
        assert(y.skip(3) =~= hex_digits(b as nat, 16));
    }
}

/// A property and its value.
pub type Declaration = (Seq<char>, Seq<char>);

/// The property and value of one declaration `name: value`, split at the
/// first colon and trimmed; none without a colon or with a blank name.
#[verifier::opaque]
pub open spec fn declaration_of(piece: Seq<char>) -> Option<Declaration> {
    if piece.contains(':') {
        let i = first_position(piece, ':');
        let key = trim(piece.take(i));
        let value = trim(piece.skip(i + 1));
        if key.len() == 0 {
            None
        } else {
            Some((key, value))
        }
    } else {
        None
    }
}

/// The declarations of the pieces of a style, in order.
pub open spec fn declarations(pieces: Seq<Seq<char>>) -> Seq<Declaration>
    decreases pieces.len(),
{
    if pieces.len() == 0 {
        Seq::empty()
    } else {
        declarations(pieces.drop_last()) + match declaration_of(pieces.last()) {
            Some(d) => seq![d],
            None => Seq::empty(),
        }
    }
}

/// The properties of a list of declarations.
pub open spec fn keys_of(entries: Seq<Declaration>) -> Seq<Seq<char>> {
    entries.map_values(|e: Declaration| e.0)
}

/// The declarations after setting `key` to `value`: the value replaces the
/// property's value where it is, or the property is added at the end.
pub open spec fn set_entry(entries: Seq<Declaration>, key: Seq<char>, value: Seq<char>) -> Seq<
    Declaration,
> {
    if keys_of(entries).contains(key) {
        entries.update(first_position(keys_of(entries), key), (key, value))
    } else {
        entries.push((key, value))
    }
}

/// Declarations collected in order: each property once, where it first
/// appears, with its last value.
pub open spec fn collected(decls: Seq<Declaration>) -> Seq<Declaration>
    decreases decls.len(),
{
    if decls.len() == 0 {
        Seq::empty()
    } else {
        set_entry(collected(decls.drop_last()), decls.last().0, decls.last().1)
    }
}

/// The properties of an inline style: its `;`-separated declarations, each
/// property once with its last value.
pub open spec fn parsed_style(style: Seq<char>) -> Seq<Declaration> {
    collected(declarations(split_pieces(style, ';')))
}

/// One declaration written out: `name: value`.
pub open spec fn declaration_text(e: Declaration) -> Seq<char> {
    e.0 + ": "@ + e.1
}

/// Declarations written out, joined with `"; "`.
pub open spec fn style_text(entries: Seq<Declaration>) -> Seq<char> {
    join_sep(entries.map_values(|e: Declaration| declaration_text(e)), "; "@)
}

/// The value of `key` among the declarations.
pub open spec fn lookup(entries: Seq<Declaration>, key: Seq<char>) -> Option<Seq<char>> {
    if keys_of(entries).contains(key) {
        Some(entries[first_position(keys_of(entries), key)].1)
    } else {
        None
    }
}

/// Inline style properties with their values, each property once, in the
/// order they first appeared. Two styles are equal when they give every
/// property the same value, whatever the order.
#[derive(Clone, Debug, Eq)]
pub struct StyleMap {
    entries: Vec<(String, String)>,
}

impl View for StyleMap {
    type V = Seq<Declaration>;

    /// The properties and values, in order.
    closed spec fn view(&self) -> Seq<Declaration> {
        self.entries@.map_values(|e: (String, String)| (e.0@, e.1@))
    }
}

impl StyleMap {
    /// An empty style.
    pub fn new() -> (m: Self)
        ensures
            m@ == Seq::<Declaration>::empty(),
    {
        let m = StyleMap { entries: Vec::new() };
        assert(m@ =~= Seq::<Declaration>::empty());
        m
    }

    /// Sets a property, in place when it is present, else at the end.
    pub fn insert(&mut self, key: &str, value: &str)
        ensures
            final(self)@ == set_entry(old(self)@, key@, value@),
    {
        let ghost before = self@;
        let mut i: usize = 0;
        while i < self.entries.len()
            invariant
                self@ == before,
                before == old(self)@,
                i <= self.entries.len(),
                forall|j: int| 0 <= j < i ==> keys_of(before)[j] != key@,
            decreases self.entries.len() - i,
        {
            assert(keys_of(before)[i as int] == self.entries@[i as int].0@);
            if str_equals(self.entries[i].0.as_str(), key) {
                proof {
                    lemma_first_position(keys_of(before), key@, i as int);
                }
                let ghost pre = self.entries@;
                self.entries.set(i, (key.to_owned(), value.to_owned()));
                assert(self@ =~= before.update(i as int, (key@, value@)));
                return;
            }
            i = i + 1;
        }
        proof {
            if keys_of(before).contains(key@) {
                let k = choose|k: int| 0 <= k < keys_of(before).len() && keys_of(before)[k] == key@;
                assert(keys_of(before)[k] != key@);
            }
        }
        self.entries.push((key.to_owned(), value.to_owned()));
        assert(self@ =~= before.push((key@, value@)));
    }

    /// The value of a property.
    pub fn get(&self, key: &str) -> (r: Option<&String>)
        ensures
            match r {
                Some(v) => lookup(self@, key@) == Some(v@),
                None => lookup(self@, key@) is None,
            },
    {
        let mut i: usize = 0;
        while i < self.entries.len()
            invariant
                i <= self.entries.len(),
                forall|j: int| 0 <= j < i ==> keys_of(self@)[j] != key@,
            decreases self.entries.len() - i,
        {
            assert(keys_of(self@)[i as int] == self.entries@[i as int].0@);
            if str_equals(self.entries[i].0.as_str(), key) {
                proof {
                    lemma_first_position(keys_of(self@), key@, i as int);
                }
                return Some(&self.entries[i].1);
            }
            i = i + 1;
        }
        proof {
            if keys_of(self@).contains(key@) {
                let k = choose|k: int| 0 <= k < keys_of(self@).len() && keys_of(self@)[k] == key@;
                assert(keys_of(self@)[k] != key@);
            }
        }
        None
    }

    /// The number of properties.
    pub fn len(&self) -> (n: usize)
        ensures
            n == self@.len(),
    {
        self.entries.len()
    }

    /// Whether there is no property.
    pub fn is_empty(&self) -> (b: bool)
        ensures
            b == (self@.len() == 0),
    {
        self.entries.len() == 0
    }
}

/// Whether every property of `a` reads the same value in `b` as in `a`.
pub open spec fn reads_same_in(a: Seq<Declaration>, b: Seq<Declaration>) -> bool {
    forall|i: int| 0 <= i < a.len() ==> lookup(b, #[trigger] a[i].0) == lookup(a, a[i].0)
}

/// Whether two styles give every property the same value.
pub open spec fn same_properties(a: Seq<Declaration>, b: Seq<Declaration>) -> bool {
    reads_same_in(a, b) && reads_same_in(b, a)
}

/// Whether every property of `a` reads the same value in `b`.
fn reads_same(a: &StyleMap, b: &StyleMap) -> (r: bool)
    ensures
        r == reads_same_in(a@, b@),
{
    let mut i: usize = 0;
    while i < a.entries.len()
        invariant
            i <= a.entries.len(),
            forall|j: int| 0 <= j < i ==> lookup(b@, #[trigger] a@[j].0) == lookup(a@, a@[j].0),
        decreases a.entries.len() - i,
    {
        let k = a.entries[i].0.as_str();
        assert(a@[i as int].0 == k@);
        let same = match (b.get(k), a.get(k)) {
            (Some(x), Some(y)) => str_equals(x.as_str(), y.as_str()),
            (None, None) => true,
            _ => false,
        };
        if !same {
            return false;
        }
        i = i + 1;
    }
    true
}

impl PartialEq for StyleMap {
    fn eq(&self, other: &Self) -> (r: bool) {
        reads_same(self, other) && reads_same(other, self)
    }
}

impl PartialEqSpecImpl for StyleMap {
    open spec fn obeys_eq_spec() -> bool {
        true
    }

    open spec fn eq_spec(&self, other: &Self) -> bool {
        same_properties(self@, other@)
    }
}

/// The characters `v[a..b]` as a string.
fn chars_between(v: &Vec<char>, a: usize, b: usize) -> (s: String)
    requires
        a <= b <= v.len(),
    ensures
        s@ == v@.subrange(a as int, b as int),
{
    let mut s = String::new();
    let mut i: usize = a;
    while i < b
        invariant
            a <= i <= b <= v.len(),
            s@ == v@.subrange(a as int, i as int),
        decreases b - i,
    {
        assert(v@.subrange(a as int, i + 1) =~= v@.subrange(a as int, i as int).push(v@[i as int]));
        push_char(&mut s, v[i]);
        i = i + 1;
    }
    s
}

/// The property and value of one declaration, as `declaration_of` gives
/// them.
fn read_declaration(piece: &str) -> (r: Option<(String, String)>)
    ensures
        match r {
            Some(d) => declaration_of(piece@) == Some((d.0@, d.1@)),
            None => declaration_of(piece@) is None,
        },
{
    proof {
        reveal(declaration_of);
    }
    let v = to_chars(piece);
    let mut i: usize = 0;
    while i < v.len() && v[i] != ':'
        invariant
            i <= v.len(),
            v@ == piece@,
            forall|j: int| 0 <= j < i ==> v@[j] != ':',
        decreases v.len() - i,
    {
        i = i + 1;
    }
    if i == v.len() {
        proof {
            if piece@.contains(':') {
                let k = choose|k: int| 0 <= k < piece@.len() && piece@[k] == ':';
                assert(v@[k] != ':');
            }
        }
        return None;
    }
    proof {
        lemma_first_position(piece@, ':', i as int);
    }
    let raw_key = chars_between(&v, 0, i);
    let raw_value = chars_between(&v, i + 1, v.len());
    assert(raw_key@ =~= piece@.take(i as int));
    assert(raw_value@ =~= piece@.skip(i + 1));
    let key = trim_str(raw_key.as_str());
    let value = trim_str(raw_value.as_str());
    if key.as_str().is_empty() {
        None
    } else {
        Some((key, value))
    }
}

/// Parses an inline style such as `"color: red; font-size: 1rem"` into its
/// properties: each `;`-separated piece with a colon and a non-blank name
/// gives a property, name and value trimmed; a property given twice keeps
/// its last value.
pub fn parse_style(style: &str) -> (m: StyleMap)
    ensures
        m@ == parsed_style(style@),
{
    let pieces = split_at_char(style, ';');
    let ghost ps = split_pieces(style@, ';');
    let mut m = StyleMap::new();
    let ghost mut decls: Seq<Declaration> = Seq::empty();
    let mut i: usize = 0;
    while i < pieces.len()
        invariant
            i <= pieces.len(),
            views(pieces@) == ps,
            decls == declarations(ps.take(i as int)),
            m@ == collected(decls),
        decreases pieces.len() - i,
    {
        proof {
            assert(ps.take(i + 1).drop_last() =~= ps.take(i as int));
            assert(ps[i as int] == pieces@[i as int]@);
        }
        match read_declaration(pieces[i].as_str()) {
            Some(d) => {
                m.insert(d.0.as_str(), d.1.as_str());
                proof {
                    let e = (d.0@, d.1@);
                    assert(decls.push(e).drop_last() =~= decls);
                    decls = decls.push(e);
                }
            },
            None => {},
        }
        assert(decls =~= declarations(ps.take(i + 1)));
        i = i + 1;
    }
    assert(ps.take(pieces.len() as int) =~= ps);
    m
}

/// Writes style properties back as an inline style: `name: value` joined
/// with `"; "`, in order.
pub fn style_to_string(map: &StyleMap) -> (s: String)
    ensures
        s@ == style_text(map@),
{
    let mut parts: Vec<String> = Vec::new();
    let mut i: usize = 0;
    while i < map.entries.len()
        invariant
            i <= map.entries.len(),
            views(parts@) == map@.take(i as int).map_values(|e: Declaration| declaration_text(e)),
        decreases map.entries.len() - i,
    {
        let mut t = String::new();
        push_str(&mut t, map.entries[i].0.as_str());
        push_str(&mut t, ": ");
        push_str(&mut t, map.entries[i].1.as_str());
        let ghost before = parts@;
        parts.push(t);
        proof {
            reveal_strlit(": ");
            assert(map@[i as int] == (map.entries@[i as int].0@, map.entries@[i as int].1@));
            assert(views(parts@) =~= views(before).push(declaration_text(map@[i as int])));
            assert(map@.take(i + 1) =~= map@.take(i as int).push(map@[i as int]));
        }
        assert(views(parts@) =~= map@.take(i + 1).map_values(|e: Declaration| declaration_text(e)));
        i = i + 1;
    }
    assert(map@.take(map.entries.len() as int) =~= map@);
    proof {
        reveal_strlit("; ");
    }
    join_strings(&parts, "; ")
}

/// Whether a declaration reads back as itself once written out: a name that
/// is not empty, has no whitespace at its ends and holds no colon or
/// semicolon, and a value with no whitespace at its ends and no semicolon.
pub open spec fn well_formed_declaration(e: Declaration) -> bool {
    &&& e.0.len() > 0
    &&& is_trimmed(e.0)
    &&& !e.0.contains(':')
    &&& !e.0.contains(';')
    &&& is_trimmed(e.1)
    &&& !e.1.contains(';')
}

/// Whether every declaration reads back as itself and no property repeats.
pub open spec fn well_formed_style(entries: Seq<Declaration>) -> bool {
    &&& forall|i: int| 0 <= i < entries.len() ==> well_formed_declaration(#[trigger] entries[i])
    &&& keys_of(entries).no_duplicates()
}

/// The pieces that splitting a `"; "`-joined list at `;` gives: the first
/// string, then each other string after a space.
pub open spec fn spaced(texts: Seq<Seq<char>>) -> Seq<Seq<char>> {
    Seq::new(
        texts.len(),
        |i: int|
            if i == 0 {
                texts[0]
            } else {
                seq![' '] + texts[i]
            },
    )
}

proof fn lemma_split_joined(texts: Seq<Seq<char>>)
    requires
        texts.len() > 0,
        forall|i: int| 0 <= i < texts.len() ==> !(#[trigger] texts[i]).contains(';'),
    ensures
        split_pieces(join_sep(texts, "; "@), ';') == spaced(texts),
    decreases texts.len(),
{
    reveal_strlit("; ");
    if texts.len() == 1 {
        lemma_split_without_sep(texts[0], ';');
        assert(spaced(texts) =~= seq![texts[0]]);
    } else {
        let dl = texts.drop_last();
        assert forall|i: int| 0 <= i < dl.len() implies !(#[trigger] dl[i]).contains(';') by {
            assert(dl[i] == texts[i]);
        }
        lemma_split_joined(dl);
        let last = seq![' '] + texts.last();
        assert(!last.contains(';')) by {
            if last.contains(';') {
                let j = choose|j: int| 0 <= j < last.len() && last[j] == ';';
                assert(texts.last()[j - 1] == ';');
                assert(texts[texts.len() - 1].contains(';'));
            }
        }
        lemma_split_without_sep(last, ';');
        assert(join_sep(texts, "; "@) =~= join_sep(dl, "; "@) + seq![';'] + last);
        lemma_split_concat(join_sep(dl, "; "@), last, ';');
        assert(spaced(dl) + seq![last] =~= spaced(texts));
    }
}

proof fn lemma_read_back(e: Declaration, lead: bool)
    requires
        well_formed_declaration(e),
    ensures
        declaration_of(
            (if lead {
                seq![' ']
            } else {
                Seq::<char>::empty()
            }) + declaration_text(e),
        ) == Some(e),
{
    reveal(declaration_of);
    reveal_strlit(": ");
    let prefix = if lead {
        seq![' ']
    } else {
        Seq::<char>::empty()
    };
    let piece = prefix + declaration_text(e);
    let idx: int = (prefix.len() + e.0.len()) as int;
    assert(piece[idx] == ':');
    assert forall|j: int| 0 <= j < idx implies piece[j] != ':' by {
        if j >= prefix.len() {
            assert(piece[j] == e.0[j - prefix.len()]);
            if piece[j] == ':' {
                assert(e.0.contains(':'));
            }
        }
    }
    lemma_first_position(piece, ':', idx);
    assert(piece.take(idx) =~= prefix + e.0);
    assert(piece.skip(idx + 1) =~= seq![' '] + e.1);
    lemma_trim_leading_space(e.1);
    lemma_trim_trimmed(e.1);
    lemma_trim_trimmed(e.0);
    if lead {
        lemma_trim_leading_space(e.0);
    } else {
        assert(prefix + e.0 =~= e.0);
    }
}

proof fn lemma_declarations_of_spaced(entries: Seq<Declaration>, texts: Seq<Seq<char>>)
    requires
        entries.len() > 0,
        forall|i: int| 0 <= i < entries.len() ==> well_formed_declaration(#[trigger] entries[i]),
        texts.len() == entries.len(),
        forall|i: int| 0 <= i < entries.len() ==> #[trigger] texts[i] == declaration_text(entries[i]),
    ensures
        declarations(spaced(texts)) == entries,
    decreases entries.len(),
{
    let p = spaced(texts);
    if entries.len() == 1 {
        lemma_read_back(entries[0], false);
        assert(Seq::<char>::empty() + declaration_text(entries[0]) =~= texts[0]);
        assert(p.drop_last() =~= Seq::<Seq<char>>::empty());
        assert(declarations(p.drop_last()) == Seq::<Declaration>::empty());
        assert(p.last() == texts[0]);
        assert(declarations(p) =~= seq![entries[0]]);
        assert(seq![entries[0]] =~= entries);
    } else {
        let dl = entries.drop_last();
        let dt = texts.drop_last();
        assert forall|i: int| 0 <= i < dl.len() implies well_formed_declaration(#[trigger] dl[i]) by {
            assert(dl[i] == entries[i]);
        }
        assert forall|i: int| 0 <= i < dl.len() implies #[trigger] dt[i] == declaration_text(dl[i]) by {
            assert(dt[i] == texts[i]);
            assert(dl[i] == entries[i]);
        }
        lemma_declarations_of_spaced(dl, dt);
        assert(p.drop_last() =~= spaced(dt));
        let last = entries[entries.len() - 1];
        lemma_read_back(last, true);
        assert(p.last() == seq![' '] + texts[texts.len() - 1]);
        assert(declaration_of(p.last()) == Some(last));
        assert(declarations(p) == declarations(p.drop_last()) + seq![last]);
        assert(dl + seq![last] =~= entries);
    }
}

proof fn lemma_collected_distinct(entries: Seq<Declaration>)
    requires
        keys_of(entries).no_duplicates(),
    ensures
        collected(entries) == entries,
    decreases entries.len(),
{
    if entries.len() > 0 {
        let dl = entries.drop_last();
        assert(keys_of(dl) =~= keys_of(entries).drop_last());
        assert(keys_of(dl).no_duplicates());
        lemma_collected_distinct(dl);
        if keys_of(dl).contains(entries.last().0) {
            let k = choose|k: int| 0 <= k < keys_of(dl).len() && keys_of(dl)[k] == entries.last().0;
            assert(keys_of(entries)[k] == keys_of(entries)[entries.len() - 1]);
        }
        assert(dl.push((entries.last().0, entries.last().1)) =~= entries);
    } else {
        assert(entries =~= Seq::<Declaration>::empty());
    }
}

/// Writing well-formed declarations out and reading the text back gives
/// them back, in order.
pub proof fn lemma_style_text_round_trip(entries: Seq<Declaration>)
    requires
        well_formed_style(entries),
    ensures
        parsed_style(style_text(entries)) == entries,
{
    if entries.len() == 0 {
        let t = style_text(entries);
        assert(entries.map_values(|e: Declaration| declaration_text(e)) =~= Seq::<Seq<char>>::empty());
        assert(t =~= Seq::<char>::empty());
        assert(split_pieces(t, ';') == seq![Seq::<char>::empty()]);
        let p = seq![Seq::<char>::empty()];
        reveal(declaration_of);
        assert(!p.last().contains(':'));
        assert(declaration_of(p.last()) is None);
        assert(p.drop_last() =~= Seq::<Seq<char>>::empty());
        assert(declarations(p.drop_last()) == Seq::<Declaration>::empty());
        assert(declarations(p) =~= Seq::<Declaration>::empty());
        assert(entries =~= Seq::<Declaration>::empty());
    } else {
        let texts = entries.map_values(|e: Declaration| declaration_text(e));
        assert forall|i: int| 0 <= i < texts.len() implies !(#[trigger] texts[i]).contains(';') by {
            let e = entries[i];
            assert(well_formed_declaration(e));
            reveal_strlit(": ");
            if texts[i].contains(';') {
                let j = choose|j: int| 0 <= j < texts[i].len() && texts[i][j] == ';';
                if j < e.0.len() {
                    assert(e.0[j] == ';');
                    assert(e.0.contains(';'));
                } else if j >= e.0.len() + 2 {
                    assert(e.1[j - e.0.len() - 2] == ';');
                    assert(e.1.contains(';'));
                } else {
                    assert(": "@[j - e.0.len()] != ';');
                }
            }
        }
        lemma_split_joined(texts);
        lemma_declarations_of_spaced(entries, texts);
        lemma_collected_distinct(entries);
    }
}

proof fn lemma_declaration_well_formed(piece: Seq<char>)
    requires
        !piece.contains(';'),
    ensures
        declaration_of(piece) matches Some(d) ==> well_formed_declaration(d),
{
    reveal(declaration_of);
    if piece.contains(':') {
        let i = first_position(piece, ':');
        let w = choose|w: int| 0 <= w < piece.len() && piece[w] == ':';
        assert(exists|k: int|
            0 <= k < piece.len() && piece[k] == ':' && forall|j: int| 0 <= j < k ==> piece[j] != ':')
            by {
            let k = choose|k: int|
                0 <= k <= w && piece[k] == ':' && forall|j: int| 0 <= j < k ==> piece[j] != ':';
            lemma_least_colon(piece, w);
        }
        assert(0 <= i < piece.len() && piece[i] == ':' && forall|j: int| 0 <= j < i ==> piece[j] != ':');
        let head = piece.take(i);
        let tail = piece.skip(i + 1);
        assert(!head.contains(':')) by {
            if head.contains(':') {
                let j = choose|j: int| 0 <= j < head.len() && head[j] == ':';
                assert(piece[j] == ':');
            }
        }
        assert(!head.contains(';')) by {
            if head.contains(';') {
                let j = choose|j: int| 0 <= j < head.len() && head[j] == ';';
                assert(piece[j] == ';');
            }
        }
        assert(!tail.contains(';')) by {
            if tail.contains(';') {
                let j = choose|j: int| 0 <= j < tail.len() && tail[j] == ';';
                assert(piece[i + 1 + j] == ';');
            }
        }
        lemma_trim_facts(head, ':');
        lemma_trim_facts(head, ';');
        lemma_trim_facts(tail, ';');
    }
}

proof fn lemma_least_colon(piece: Seq<char>, w: int)
    requires
        0 <= w < piece.len(),
        piece[w] == ':',
    ensures
        exists|k: int|
            0 <= k <= w && piece[k] == ':' && forall|j: int| 0 <= j < k ==> piece[j] != ':',
    decreases w,
{
    if exists|j: int| 0 <= j < w && piece[j] == ':' {
        let j = choose|j: int| 0 <= j < w && piece[j] == ':';
        lemma_least_colon(piece, j);
    } else {
        assert(forall|j: int| 0 <= j < w ==> piece[j] != ':');
    }
}

proof fn lemma_declarations_well_formed(pieces: Seq<Seq<char>>)
    requires
        forall|i: int| 0 <= i < pieces.len() ==> !(#[trigger] pieces[i]).contains(';'),
    ensures
        forall|i: int|
            0 <= i < declarations(pieces).len() ==> well_formed_declaration(
                #[trigger] declarations(pieces)[i],
            ),
    decreases pieces.len(),
{
    if pieces.len() > 0 {
        let dl = pieces.drop_last();
        assert forall|i: int| 0 <= i < dl.len() implies !(#[trigger] dl[i]).contains(';') by {
            assert(dl[i] == pieces[i]);
        }
        lemma_declarations_well_formed(dl);
        assert(!pieces[pieces.len() - 1].contains(';'));
        lemma_declaration_well_formed(pieces.last());
        let a = declarations(dl);
        let extra = match declaration_of(pieces.last()) {
            Some(d) => seq![d],
            None => Seq::<Declaration>::empty(),
        };
        assert(declarations(pieces) == a + extra);
        assert forall|i: int| 0 <= i < (a + extra).len() implies well_formed_declaration(
            #[trigger] (a + extra)[i],
        ) by {
            if i < a.len() {
                assert((a + extra)[i] == a[i]);
            } else {
                assert((a + extra)[i] == extra[i - a.len()]);
            }
        }
    }
}

proof fn lemma_collected_well_formed(decls: Seq<Declaration>)
    requires
        forall|i: int| 0 <= i < decls.len() ==> well_formed_declaration(#[trigger] decls[i]),
    ensures
        well_formed_style(collected(decls)),
    decreases decls.len(),
{
    if decls.len() == 0 {
        assert(keys_of(Seq::<Declaration>::empty()) =~= Seq::<Seq<char>>::empty());
    } else {
        let dl = decls.drop_last();
        assert forall|i: int| 0 <= i < dl.len() implies well_formed_declaration(#[trigger] dl[i]) by {
            assert(dl[i] == decls[i]);
        }
        lemma_collected_well_formed(dl);
        let c = collected(dl);
        let k = decls.last().0;
        let v = decls.last().1;
        assert(well_formed_declaration(decls[decls.len() - 1]));
        if keys_of(c).contains(k) {
            let pos = first_position(keys_of(c), k);
            let w = choose|w: int| 0 <= w < keys_of(c).len() && keys_of(c)[w] == k;
            assert(exists|q: int|
                0 <= q < keys_of(c).len() && keys_of(c)[q] == k && forall|j: int|
                    0 <= j < q ==> keys_of(c)[j] != k) by {
                lemma_least_key(keys_of(c), k, w);
            }
            assert(0 <= pos < c.len() && keys_of(c)[pos] == k);
            let n = c.update(pos, (k, v));
            assert(keys_of(n) =~= keys_of(c));
        } else {
            let n = c.push((k, v));
            assert(keys_of(n) =~= keys_of(c).push(k));
            assert forall|i: int, j: int|
                0 <= i < keys_of(n).len() && 0 <= j < keys_of(n).len() && i != j implies keys_of(
                n,
            )[i] != keys_of(n)[j] by {
                if i == c.len() as int {
                    assert(keys_of(c)[j] == keys_of(n)[j]);
                } else if j == c.len() as int {
                    assert(keys_of(c)[i] == keys_of(n)[i]);
                }
            }
        }
    }
}

proof fn lemma_least_key(keys: Seq<Seq<char>>, k: Seq<char>, w: int)
    requires
        0 <= w < keys.len(),
        keys[w] == k,
    ensures
        exists|q: int| 0 <= q <= w && keys[q] == k && forall|j: int| 0 <= j < q ==> keys[j] != k,
    decreases w,
{
    if exists|j: int| 0 <= j < w && keys[j] == k {
        let j = choose|j: int| 0 <= j < w && keys[j] == k;
        lemma_least_key(keys, k, j);
    }
}

/// The properties read from any inline style read back as themselves once
/// written out: parsing the text of a parsed style gives the same properties,
/// values and order.
pub proof fn lemma_style_round_trip(style: Seq<char>)
    ensures
        parsed_style(style_text(parsed_style(style))) == parsed_style(style),
        well_formed_style(parsed_style(style)),
{
    lemma_split_pieces_lack_sep(style, ';');
    lemma_declarations_well_formed(split_pieces(style, ';'));
    lemma_collected_well_formed(declarations(split_pieces(style, ';')));
    lemma_style_text_round_trip(parsed_style(style));
}

} // verus!
