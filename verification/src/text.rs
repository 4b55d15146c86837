//! String primitives with exact specifications: Unicode whitespace, blank
//! tests, trimming and joining.

use vstd::prelude::*;

verus! {

/// The Unicode `White_Space` property, which is what `char::is_whitespace`
/// tests.
pub open spec fn is_ws(c: char) -> bool {
    let u = c as u32;
    ||| (0x09 <= u && u <= 0x0d)
    ||| u == 0x20
    ||| u == 0x85
    ||| u == 0xa0
    ||| u == 0x1680
    ||| (0x2000 <= u && u <= 0x200a)
    ||| u == 0x2028
    ||| u == 0x2029
    ||| u == 0x202f
    ||| u == 0x205f
    ||| u == 0x3000
}

/// A string is blank when it holds whitespace only (`s.trim().is_empty()`).
pub open spec fn is_blank(s: Seq<char>) -> bool {
    forall|i: int| 0 <= i < s.len() ==> is_ws(#[trigger] s[i])
}

/// Executable whitespace test.
pub fn is_whitespace(c: char) -> (b: bool)
    ensures
        b == is_ws(c),
{
    let u = c as u32;
    (0x09 <= u && u <= 0x0d) || u == 0x20 || u == 0x85 || u == 0xa0 || u == 0x1680 || (0x2000
        <= u && u <= 0x200a) || u == 0x2028 || u == 0x2029 || u == 0x202f || u == 0x205f || u
        == 0x3000
}

/// Whether `s` holds whitespace only.
pub fn str_is_blank(s: &str) -> (b: bool)
    ensures
        b == is_blank(s@),
{
    let ghost mut idx: int = 0;
    for c in it: s.chars()
        invariant
            idx == it.index(),
            idx <= s@.len(),
            it.seq() == s@,
            forall|i: int| 0 <= i < idx ==> is_ws(#[trigger] s@[i]),
    {
        if !is_whitespace(c) {
            return false;
        }
        proof {
            idx = idx + 1;
        }
    }
    true
}

} // verus!

verus! {

/// The strings of `parts` joined with one space between neighbours.
pub open spec fn join_words(parts: Seq<Seq<char>>) -> Seq<char>
    decreases parts.len(),
{
    if parts.len() == 0 {
        Seq::empty()
    } else if parts.len() == 1 {
        parts[0]
    } else {
        join_words(parts.drop_last()) + seq![' '] + parts.last()
    }
}

/// The views of a vector of strings.
pub open spec fn views(v: Seq<String>) -> Seq<Seq<char>> {
    v.map_values(|s: String| s@)
}

/// Appends a character (`String::push`).
#[verifier::external_body]
pub(crate) fn push_char(s: &mut String, c: char)
    ensures
        final(s)@ == old(s)@.push(c),
{
    s.push(c);
}

/// Appends a string slice.
pub(crate) fn push_str(s: &mut String, t: &str)
    ensures
        final(s)@ == old(s)@ + t@,
{
    s.append(t);
}

/// Joins the strings of `parts` with single spaces.
pub fn join_with_spaces(parts: &Vec<String>) -> (r: String)
    ensures
        r@ == join_words(views(parts@)),
{
    let mut r = String::new();
    let n = parts.len();
    let mut i: usize = 0;
    while i < n
        invariant
            n == parts.len(),
            i <= n,
            r@ == join_words(views(parts@).take(i as int)),
        decreases n - i,
    {
        let ghost pre = views(parts@).take(i as int);
        let ghost post = views(parts@).take(i + 1);
        assert(post.drop_last() =~= pre);
        if i > 0 {
            push_char(&mut r, ' ');
        }
        push_str(&mut r, parts[i].as_str());
        proof {
            if i == 0 {
                assert(post.len() == 1);
            }
        }
        i = i + 1;
    }
    assert(views(parts@).take(n as int) =~= views(parts@));
    r
}

} // verus!

verus! {

/// Whether `s` holds a character that is not whitespace.
pub open spec fn not_blank(s: Seq<char>) -> bool {
    !is_blank(s)
}

/// The strings of `parts` that are not blank, in order.
pub open spec fn kept(parts: Seq<Seq<char>>) -> Seq<Seq<char>> {
    parts.filter(|c: Seq<char>| not_blank(c))
}

/// A string whose first character is not whitespace is not blank.
pub proof fn lemma_first_char_not_blank(s: Seq<char>)
    requires
        s.len() > 0,
        !is_ws(s[0]),
    ensures
        not_blank(s),
{
}

/// `kept` of a sequence extended by one string.
pub proof fn lemma_kept_push(parts: Seq<Seq<char>>, c: Seq<char>)
    ensures
        kept(parts.push(c)) == if not_blank(c) {
            kept(parts).push(c)
        } else {
            kept(parts)
        },
{
    reveal_with_fuel(Seq::filter, 1);
    assert(parts.push(c).drop_last() =~= parts);
}

} // verus!

verus! {

/// The characters of a string slice, in order.
pub fn to_chars(s: &str) -> (v: Vec<char>)
    ensures
        v@ == s@,
{
    let mut v: Vec<char> = Vec::new();
    for c in it: s.chars()
        invariant
            it.seq() == s@,
            v@ == s@.take(it.index() as int),
    {
        proof {
            assert(s@.take(it.index() + 1) =~= s@.take(it.index() as int).push(c));
        }
        v.push(c);
    }
    assert(s@.take(s@.len() as int) =~= s@);
    v
}

/// A string holding the characters of `v`.
pub fn from_chars(v: &Vec<char>) -> (s: String)
    ensures
        s@ == v@,
{
    let mut s = String::new();
    let mut i: usize = 0;
    while i < v.len()
        invariant
            i <= v.len(),
            s@ == v@.take(i as int),
        decreases v.len() - i,
    {
        assert(v@.take(i + 1) =~= v@.take(i as int).push(v@[i as int]));
        push_char(&mut s, v[i]);
        i = i + 1;
    }
    assert(v@.take(v@.len() as int) =~= v@);
    s
}

/// The ASCII digit of a number below ten.
pub open spec fn digit_char(d: nat) -> char {
    ((d + 48) as u8) as char
}

/// The decimal representation of a natural number, without leading zeros.
pub open spec fn decimal(n: nat) -> Seq<char>
    decreases n,
{
    if n < 10 {
        seq![digit_char(n)]
    } else {
        decimal(n / 10).push(digit_char(n % 10))
    }
}

/// Appends the decimal representation of `n`.
pub fn push_decimal(s: &mut String, n: u64)
    ensures
        final(s)@ == old(s)@ + decimal(n as nat),
    decreases n,
{
    if n >= 10 {
        push_decimal(s, n / 10);
    }
    let d: u8 = (n % 10) as u8;
    push_char(s, (d + 48u8) as char);
    assert(final(s)@ =~= old(s)@ + decimal(n as nat));
}

/// The decimal representation of `n` (`n.to_string()`).
pub fn decimal_string(n: u64) -> (s: String)
    ensures
        s@ == decimal(n as nat),
{
    let mut s = String::new();
    push_decimal(&mut s, n);
    assert(s@ =~= decimal(n as nat));
    s
}

/// The decimal representation of `n` padded with zeros to `width` digits
/// (`format!("{:0width$}", n)`).
pub open spec fn zero_padded(n: nat, width: nat) -> Seq<char> {
    let d = decimal(n);
    if d.len() >= width {
        d
    } else {
        Seq::new((width - d.len()) as nat, |i: int| '0') + d
    }
}

/// Pads the decimal representation of `n` with zeros to `width` digits.
pub fn zero_padded_string(n: u64, width: usize) -> (s: String)
    ensures
        s@ == zero_padded(n as nat, width as nat),
{
    let d = decimal_string(n);
    let len = d.as_str().unicode_len();
    let mut s = String::new();
    if len < width {
        let mut k: usize = 0;
        while k < width - len
            invariant
                k <= width - len,
                len < width,
                s@ == Seq::new(k as nat, |i: int| '0'),
            decreases width - len - k,
        {
            push_char(&mut s, '0');
            k = k + 1;
            assert(s@ =~= Seq::new(k as nat, |i: int| '0'));
        }
    }
    push_str(&mut s, d.as_str());
    assert(s@ =~= zero_padded(n as nat, width as nat));
    s
}

} // verus!

verus! {

/// Whether `c` is an ASCII decimal digit.
pub open spec fn is_digit(c: char) -> bool {
    '0' <= c && c <= '9'
}

/// The value of a sequence of ASCII digits.
pub open spec fn digits_value(d: Seq<char>) -> nat
    decreases d.len(),
{
    if d.len() == 0 {
        0
    } else {
        digits_value(d.drop_last()) * 10 + ((d.last() as u32) - 48) as nat
    }
}

/// Whether every character of `d` is an ASCII digit.
pub open spec fn all_digits(d: Seq<char>) -> bool {
    forall|i: int| 0 <= i < d.len() ==> is_digit(#[trigger] d[i])
}

/// The integer that `str::parse` reads from `s` for an integer type with
/// range `lo..=hi`: an optional sign (`-` only when `lo < 0`) followed by at
/// least one ASCII digit, the value in range; `None` otherwise.
pub open spec fn parse_int(s: Seq<char>, lo: int, hi: int) -> Option<int> {
    if s.len() == 0 {
        None
    } else {
        let neg = s[0] == '-' && lo < 0;
        let body = if s[0] == '+' || neg {
            s.skip(1)
        } else {
            s
        };
        let v: int = if neg {
            -(digits_value(body) as int)
        } else {
            digits_value(body) as int
        };
        if body.len() == 0 || !all_digits(body) || v < lo || v > hi {
            None
        } else {
            Some(v)
        }
    }
}

proof fn lemma_digits_value_step(d: Seq<char>, c: char)
    ensures
        digits_value(d.push(c)) == digits_value(d) * 10 + ((c as u32) - 48) as nat,
{
    assert(d.push(c).drop_last() =~= d);
}

/// Reads the digits of `body` as a magnitude, or `None` when one of them is not
/// an ASCII digit or the value exceeds `bound`.
fn read_digits(body: &Vec<char>, start: usize, bound: u64) -> (r: Option<u64>)
    requires
        start <= body.len(),
    ensures
        match r {
            Some(v) => all_digits(body@.skip(start as int)) && v == digits_value(
                body@.skip(start as int),
            ) && v <= bound,
            None => !all_digits(body@.skip(start as int)) || digits_value(body@.skip(start as int))
                > bound,
        },
{
    let ghost d = body@.skip(start as int);
    let mut acc: u64 = 0;
    let mut i: usize = start;
    let mut over = false;
    while i < body.len()
        invariant
            start <= i <= body.len(),
            d == body@.skip(start as int),
            all_digits(d.take(i - start)),
            !over ==> acc == digits_value(d.take(i - start)) && acc <= bound,
            over ==> digits_value(d.take(i - start)) > bound,
        decreases body.len() - i,
    {
        let c = body[i];
        if !('0' <= c && c <= '9') {
            assert(d[i - start] == c);
            return None;
        }
        proof {
            assert(d.take(i - start + 1) =~= d.take(i - start).push(c));
            lemma_digits_value_step(d.take(i - start), c);
        }
        if !over {
            let v: u128 = (acc as u128) * 10 + ((c as u32) - 48) as u128;
            if v > bound as u128 {
                over = true;
            } else {
                acc = v as u64;
            }
        }
        i = i + 1;
    }
    assert(d.take(i - start) =~= d);
    if over {
        None
    } else {
        Some(acc)
    }
}

/// Parses a signed 32-bit integer as `str::parse::<i32>` does.
pub fn parse_i32(s: &str) -> (r: Option<i32>)
    ensures
        match r {
            Some(v) => parse_int(s@, i32::MIN as int, i32::MAX as int) == Some(v as int),
            None => parse_int(s@, i32::MIN as int, i32::MAX as int) is None,
        },
{
    let v = to_chars(s);
    if v.len() == 0 {
        return None;
    }
    let neg = v[0] == '-';
    let start: usize = if v[0] == '+' || neg {
        1
    } else {
        0
    };
    if start >= v.len() {
        return None;
    }
    assert(v@.skip(0) =~= v@);
    match read_digits(&v, start, 0x8000_0000) {
        Some(m) => {
            if neg {
                Some((0 - (m as i64)) as i32)
            } else if m <= 0x7fff_ffff {
                Some(m as i32)
            } else {
                None
            }
        },
        None => None,
    }
}

/// Parses an unsigned integer of at most `max` as `str::parse` does for an
/// unsigned type whose largest value is `max`.
pub fn parse_unsigned(s: &str, max: u64) -> (r: Option<u64>)
    ensures
        match r {
            Some(v) => parse_int(s@, 0, max as int) == Some(v as int),
            None => parse_int(s@, 0, max as int) is None,
        },
{
    let v = to_chars(s);
    if v.len() == 0 {
        return None;
    }
    let start: usize = if v[0] == '+' {
        1
    } else {
        0
    };
    if start >= v.len() {
        return None;
    }
    assert(v@.skip(0) =~= v@);
    read_digits(&v, start, max)
}

} // verus!

verus! {

/// Whether `s` has `pat` at position `i`.
pub open spec fn matches_at(s: Seq<char>, i: int, pat: Seq<char>) -> bool {
    0 <= i && i + pat.len() <= s.len() && s.subrange(i, i + pat.len()) == pat
}

/// `s` with every non-overlapping occurrence of the non-empty `from`, found
/// from the left, replaced by `to` (what `str::replace` returns).
pub open spec fn replace_all(s: Seq<char>, from: Seq<char>, to: Seq<char>) -> Seq<char>
    decreases s.len(),
{
    if s.len() == 0 || from.len() == 0 {
        s
    } else if matches_at(s, 0, from) {
        to + replace_all(s.skip(from.len() as int), from, to)
    } else {
        seq![s[0]] + replace_all(s.skip(1), from, to)
    }
}

/// Whether `v` holds `pat` at position `i`.
fn vec_matches_at(v: &Vec<char>, i: usize, pat: &Vec<char>) -> (b: bool)
    requires
        i <= v.len(),
    ensures
        b == matches_at(v@, i as int, pat@),
{
    if pat.len() > v.len() - i {
        return false;
    }
    let mut k: usize = 0;
    while k < pat.len()
        invariant
            i + pat.len() <= v.len(),
            k <= pat.len(),
            forall|j: int| 0 <= j < k ==> v@[i + j] == pat@[j],
        decreases pat.len() - k,
    {
        if v[i + k] != pat[k] {
            assert(v@.subrange(i as int, i + pat.len())[k as int] != pat@[k as int]);
            return false;
        }
        k = k + 1;
    }
    assert(v@.subrange(i as int, i + pat.len()) =~= pat@);
    true
}

/// Replaces every non-overlapping occurrence of the non-empty `from` by `to`
/// (`str::replace`).
pub fn replace(s: &str, from: &str, to: &str) -> (r: String)
    requires
        from@.len() > 0,
    ensures
        r@ == replace_all(s@, from@, to@),
{
    let v = to_chars(s);
    let f = to_chars(from);
    let mut out = String::new();
    let mut i: usize = 0;
    assert(v@.skip(0) =~= v@);
    assert(out@ + replace_all(v@.skip(0), f@, to@) =~= replace_all(v@, f@, to@));
    while i < v.len()
        invariant
            v@ == s@,
            f@ == from@,
            f@.len() > 0,
            i <= v.len(),
            out@ + replace_all(v@.skip(i as int), f@, to@) == replace_all(v@, f@, to@),
        decreases v.len() - i,
    {
        let ghost rest = v@.skip(i as int);
        if vec_matches_at(&v, i, &f) {
            assert(rest.subrange(0, f@.len() as int) =~= v@.subrange(i as int, i + f@.len()));
            assert(rest.skip(f@.len() as int) =~= v@.skip(i + f@.len()));
            push_str(&mut out, to);
            i = i + f.len();
        } else {
            assert(!matches_at(rest, 0, f@)) by {
                if matches_at(rest, 0, f@) {
                    assert(rest.subrange(0, f@.len() as int) =~= v@.subrange(
                        i as int,
                        i + f@.len(),
                    ));
                }
            }
            assert(rest.skip(1) =~= v@.skip(i + 1));
            push_char(&mut out, v[i]);
            assert(out@ + replace_all(v@.skip(i + 1), f@, to@) =~= replace_all(v@, f@, to@));
            i = i + 1;
        }
    }
    assert(v@.skip(i as int) =~= Seq::<char>::empty());
    assert(out@ =~= out@ + replace_all(v@.skip(i as int), f@, to@));
    out
}

} // verus!

verus! {

/// `s` without its leading whitespace.
pub open spec fn trim_start(s: Seq<char>) -> Seq<char>
    decreases s.len(),
{
    if s.len() > 0 && is_ws(s[0]) {
        trim_start(s.skip(1))
    } else {
        s
    }
}

/// `s` without its trailing whitespace.
pub open spec fn trim_end(s: Seq<char>) -> Seq<char>
    decreases s.len(),
{
    if s.len() > 0 && is_ws(s.last()) {
        trim_end(s.drop_last())
    } else {
        s
    }
}

/// `s` without leading and trailing whitespace (`str::trim`).
pub open spec fn trim(s: Seq<char>) -> Seq<char> {
    trim_end(trim_start(s))
}

proof fn lemma_trim_start_at(s: Seq<char>, i: int)
    requires
        0 <= i <= s.len(),
        forall|j: int| 0 <= j < i ==> is_ws(#[trigger] s[j]),
    ensures
        trim_start(s) == trim_start(s.skip(i)),
    decreases i,
{
    if i > 0 {
        lemma_trim_start_at(s.skip(1), i - 1);
        assert(s.skip(1).skip(i - 1) =~= s.skip(i));
    } else {
        assert(s.skip(0) =~= s);
    }
}

proof fn lemma_trim_end_at(s: Seq<char>, k: int)
    requires
        0 <= k <= s.len(),
        forall|j: int| k <= j < s.len() ==> is_ws(#[trigger] s[j]),
    ensures
        trim_end(s) == trim_end(s.take(k)),
    decreases s.len() - k,
{
    if k < s.len() {
        lemma_trim_end_at(s.drop_last(), k);
        assert(s.drop_last().take(k) =~= s.take(k));
    } else {
        assert(s.take(k) =~= s);
    }
}

/// Whether `s` has no leading or trailing whitespace.
pub open spec fn is_trimmed(s: Seq<char>) -> bool {
    s.len() == 0 || (!is_ws(s[0]) && !is_ws(s.last()))
}

proof fn lemma_trim_start_suffix(s: Seq<char>)
    ensures
        exists|k: int| 0 <= k <= s.len() && trim_start(s) == s.skip(k),
        trim_start(s).len() == 0 || !is_ws(trim_start(s)[0]),
    decreases s.len(),
{
    if s.len() > 0 && is_ws(s[0]) {
        lemma_trim_start_suffix(s.skip(1));
        let k = choose|k: int| 0 <= k <= s.skip(1).len() && trim_start(s.skip(1)) == s.skip(1).skip(k);
        assert(s.skip(1).skip(k) =~= s.skip(k + 1));
    } else {
        assert(s.skip(0) =~= s);
    }
}

proof fn lemma_trim_end_prefix(s: Seq<char>)
    ensures
        exists|k: int| 0 <= k <= s.len() && trim_end(s) == s.take(k),
        trim_end(s).len() == 0 || !is_ws(trim_end(s).last()),
    decreases s.len(),
{
    if s.len() > 0 && is_ws(s.last()) {
        lemma_trim_end_prefix(s.drop_last());
        let k = choose|k: int|
            0 <= k <= s.drop_last().len() && trim_end(s.drop_last()) == s.drop_last().take(k);
        assert(s.drop_last().take(k) =~= s.take(k));
    } else {
        assert(s.take(s.len() as int) =~= s);
    }
}

/// Trimming leaves no leading or trailing whitespace, and keeps a part of
/// the string: a character absent from the string is absent from it.
pub proof fn lemma_trim_facts(s: Seq<char>, c: char)
    ensures
        is_trimmed(trim(s)),
        !s.contains(c) ==> !trim(s).contains(c),
{
    lemma_trim_start_suffix(s);
    let u = trim_start(s);
    let k1 = choose|k: int| 0 <= k <= s.len() && u == s.skip(k);
    lemma_trim_end_prefix(u);
    let k2 = choose|k: int| 0 <= k <= u.len() && trim_end(u) == u.take(k);
    let t = trim(s);
    if t.len() > 0 {
        assert(t[0] == u[0]);
    }
    if !s.contains(c) && t.contains(c) {
        let j = choose|j: int| 0 <= j < t.len() && t[j] == c;
        assert(t[j] == s[k1 + j]);
    }
}

/// Trimming a string without leading or trailing whitespace keeps it.
pub proof fn lemma_trim_trimmed(s: Seq<char>)
    requires
        is_trimmed(s),
    ensures
        trim(s) == s,
{
}

/// A leading space does not change the trimmed string.
pub proof fn lemma_trim_leading_space(s: Seq<char>)
    ensures
        trim(seq![' '] + s) == trim(s),
{
    assert((seq![' '] + s).skip(1) =~= s);
}

/// `s` without leading and trailing whitespace.
pub fn trim_str(s: &str) -> (r: String)
    ensures
        r@ == trim(s@),
{
    let v = to_chars(s);
    let n = v.len();
    let mut a: usize = 0;
    while a < n && is_whitespace(v[a])
        invariant
            n == v.len(),
            a <= n,
            forall|j: int| 0 <= j < a ==> is_ws(#[trigger] v@[j]),
        decreases n - a,
    {
        a = a + 1;
    }
    proof {
        lemma_trim_start_at(v@, a as int);
    }
    let mut b: usize = n;
    while b > a && is_whitespace(v[b - 1])
        invariant
            n == v.len(),
            a <= b <= n,
            forall|j: int| b <= j < n ==> is_ws(#[trigger] v@[j]),
        decreases b,
    {
        b = b - 1;
    }
    let ghost t = v@.skip(a as int);
    proof {
        if a < n {
            assert(!is_ws(t[0]));
        }
        assert(trim_start(t) == t);
        lemma_trim_end_at(t, b - a);
        if b > a {
            assert(t.take(b - a).last() == v@[b - 1]);
        }
        assert(t.take(b - a) =~= v@.subrange(a as int, b as int));
    }
    let mut out = String::new();
    let mut i: usize = a;
    while i < b
        invariant
            a <= i <= b <= n == v.len(),
            out@ == v@.subrange(a as int, i as int),
        decreases b - i,
    {
        assert(v@.subrange(a as int, i + 1) =~= v@.subrange(a as int, i as int).push(v@[i as int]));
        push_char(&mut out, v[i]);
        i = i + 1;
    }
    out
}

/// Whether `needle` occurs in `hay`.
pub open spec fn contains_seq(hay: Seq<char>, needle: Seq<char>) -> bool {
    exists|i: int| #[trigger] matches_at(hay, i, needle)
}

/// Whether `needle` occurs in `hay` (`str::contains`).
pub fn str_contains(hay: &str, needle: &str) -> (b: bool)
    ensures
        b == contains_seq(hay@, needle@),
{
    let h = to_chars(hay);
    let p = to_chars(needle);
    let mut i: usize = 0;
    while i < h.len()
        invariant
            h@ == hay@,
            p@ == needle@,
            i <= h.len(),
            forall|j: int| 0 <= j < i ==> !matches_at(h@, j, p@),
        decreases h.len() - i,
    {
        if vec_matches_at(&h, i, &p) {
            return true;
        }
        i = i + 1;
    }
    if vec_matches_at(&h, i, &p) {
        return true;
    }
    assert forall|j: int| !(#[trigger] matches_at(h@, j, p@)) by {
        if 0 <= j <= i {
        }
    }
    false
}

/// A character with the ASCII capitals `A` to `Z` mapped to `a` to `z`.
pub open spec fn ascii_lower_char(c: char) -> char {
    if 'A' <= c && c <= 'Z' {
        ((c as u32) + 32) as char
    } else {
        c
    }
}

/// A string with its ASCII capitals mapped to small letters.
pub open spec fn ascii_lower(s: Seq<char>) -> Seq<char> {
    s.map_values(|c: char| ascii_lower_char(c))
}

/// The lowercase mapping of a string (what `str::to_lowercase` returns).
pub uninterp spec fn lowercase(s: Seq<char>) -> Seq<char>;

/// `str::to_lowercase`: the result is the lowercase mapping of the argument,
/// which depends on nothing else.
#[verifier::external_body]
pub(crate) fn to_lowercase(s: &str) -> (r: String)
    ensures
        r@ == lowercase(s@),
{
    s.to_lowercase()
}

} // verus!

verus! {

/// Whether two string slices hold the same characters (`==` on `str`).
pub fn str_equals(a: &str, b: &str) -> (r: bool)
    ensures
        r == (a@ == b@),
{
    let x = to_chars(a);
    let y = to_chars(b);
    if x.len() != y.len() {
        return false;
    }
    let mut i: usize = 0;
    while i < x.len()
        invariant
            x@ == a@,
            y@ == b@,
            x.len() == y.len(),
            i <= x.len(),
            forall|j: int| 0 <= j < i ==> x@[j] == y@[j],
        decreases x.len() - i,
    {
        if x[i] != y[i] {
            return false;
        }
        i = i + 1;
    }
    assert(x@ =~= y@);
    true
}

/// The key name of a keyboard event: its `code`, or its `key` when the code
/// is empty.
pub fn pick_key<'a>(code: &'a str, key: &'a str) -> (r: &'a str)
    ensures
        r@ == if code@.len() == 0 {
            key@
        } else {
            code@
        },
{
    if code.is_empty() {
        key
    } else {
        code
    }
}

} // verus!

verus! {

/// `base`, then ` {a}` when `on_a`, then ` {b}` when `on_b`.
pub open spec fn flagged(base: Seq<char>, a: Seq<char>, on_a: bool, b: Seq<char>, on_b: bool) -> Seq<
    char,
> {
    base + (if on_a {
        " "@ + a
    } else {
        Seq::empty()
    }) + (if on_b {
        " "@ + b
    } else {
        Seq::empty()
    })
}

/// Builds `base`, then ` {a}` when `on_a`, then ` {b}` when `on_b`.
pub fn flagged_string(base: &str, a: &str, on_a: bool, b: &str, on_b: bool) -> (s: String)
    ensures
        s@ == flagged(base@, a@, on_a, b@, on_b),
{
    let mut s = String::new();
    push_str(&mut s, base);
    if on_a {
        push_str(&mut s, " ");
        push_str(&mut s, a);
    }
    if on_b {
        push_str(&mut s, " ");
        push_str(&mut s, b);
    }
    proof {
        assert(s@ =~= flagged(base@, a@, on_a, b@, on_b));
    }
    s
}

} // verus!

verus! {

/// The pieces of `s` between the occurrences of `sep` (what `str::split`
/// yields, in order; there is always at least one piece).
pub open spec fn split_pieces(s: Seq<char>, sep: char) -> Seq<Seq<char>>
    decreases s.len(),
{
    if s.len() == 0 {
        seq![Seq::empty()]
    } else {
        let p = split_pieces(s.drop_last(), sep);
        if s.last() == sep {
            p.push(Seq::empty())
        } else {
            p.update(p.len() - 1, p.last().push(s.last()))
        }
    }
}

proof fn lemma_split_pieces_nonempty(s: Seq<char>, sep: char)
    ensures
        split_pieces(s, sep).len() >= 1,
    decreases s.len(),
{
    if s.len() > 0 {
        lemma_split_pieces_nonempty(s.drop_last(), sep);
    }
}

/// A string without `sep` is one piece.
pub proof fn lemma_split_without_sep(s: Seq<char>, sep: char)
    requires
        !s.contains(sep),
    ensures
        split_pieces(s, sep) == seq![s],
    decreases s.len(),
{
    if s.len() > 0 {
        assert(!s.drop_last().contains(sep)) by {
            if s.drop_last().contains(sep) {
                let j = choose|j: int| 0 <= j < s.drop_last().len() && s.drop_last()[j] == sep;
                assert(s[j] == sep);
            }
        }
        lemma_split_without_sep(s.drop_last(), sep);
        assert(s[s.len() - 1] != sep);
        assert(s.drop_last().push(s.last()) =~= s);
        assert(seq![s.drop_last()].update(0, s.drop_last().push(s.last())) =~= seq![s]);
    } else {
        assert(s =~= Seq::<char>::empty());
        assert(seq![Seq::<char>::empty()] =~= seq![s]);
    }
}

/// Splitting at a separator splits each side.
pub proof fn lemma_split_concat(x: Seq<char>, y: Seq<char>, sep: char)
    ensures
        split_pieces(x + seq![sep] + y, sep) == split_pieces(x, sep) + split_pieces(y, sep),
    decreases y.len(),
{
    lemma_split_pieces_nonempty(x, sep);
    if y.len() == 0 {
        assert((x + seq![sep] + y).drop_last() =~= x);
        assert(x + seq![sep] + y =~= (x + seq![sep]));
    } else {
        lemma_split_concat(x, y.drop_last(), sep);
        lemma_split_pieces_nonempty(y.drop_last(), sep);
        let z = x + seq![sep] + y;
        assert(z.drop_last() =~= x + seq![sep] + y.drop_last());
        assert(z.last() == y.last());
        let a = split_pieces(x, sep);
        let b = split_pieces(y.drop_last(), sep);
        if y.last() == sep {
            assert((a + b).push(Seq::empty()) =~= a + b.push(Seq::empty()));
        } else {
            assert((a + b).update((a + b).len() - 1, (a + b).last().push(y.last())) =~= a + b.update(
                b.len() - 1,
                b.last().push(y.last()),
            ));
        }
    }
}

/// The pieces of `s` hold no `sep`.
pub proof fn lemma_split_pieces_lack_sep(s: Seq<char>, sep: char)
    ensures
        forall|i: int| 0 <= i < split_pieces(s, sep).len() ==> !(#[trigger] split_pieces(s, sep)[i]).contains(sep),
    decreases s.len(),
{
    if s.len() > 0 {
        lemma_split_pieces_lack_sep(s.drop_last(), sep);
        lemma_split_pieces_nonempty(s.drop_last(), sep);
        let p = split_pieces(s.drop_last(), sep);
        if s.last() != sep {
            let q = p.last().push(s.last());
            assert(!q.contains(sep)) by {
                if q.contains(sep) {
                    let j = choose|j: int| 0 <= j < q.len() && q[j] == sep;
                    if j < p.last().len() {
                        assert(p.last()[j] == sep);
                        assert(p[p.len() - 1].contains(sep));
                    }
                }
            }
        }
    }
}

/// Splits `s` at every `sep` (`str::split` with a character).
pub fn split_at_char(s: &str, sep: char) -> (r: Vec<String>)
    ensures
        views(r@) == split_pieces(s@, sep),
{
    let v = to_chars(s);
    let mut done: Vec<String> = Vec::new();
    let mut cur: Vec<char> = Vec::new();
    let mut i: usize = 0;
    while i < v.len()
        invariant
            v@ == s@,
            i <= v.len(),
            views(done@).push(cur@) == split_pieces(v@.take(i as int), sep),
        decreases v.len() - i,
    {
        proof {
            assert(v@.take(i + 1).drop_last() =~= v@.take(i as int));
            lemma_split_pieces_nonempty(v@.take(i as int), sep);
        }
        if v[i] == sep {
            let piece = from_chars(&cur);
            done.push(piece);
            cur = Vec::new();
            assert(views(done@).push(cur@) =~= split_pieces(v@.take(i + 1), sep));
        } else {
            cur.push(v[i]);
            assert(views(done@).push(cur@) =~= split_pieces(v@.take(i + 1), sep));
        }
        i = i + 1;
    }
    let last = from_chars(&cur);
    done.push(last);
    assert(v@.take(v@.len() as int) =~= v@);
    assert(views(done@) =~= split_pieces(s@, sep));
    done
}

} // verus!

verus! {

/// The strings of `parts` joined with `sep` between neighbours (what
/// `join(sep)` on a list of strings returns).
pub open spec fn join_sep(parts: Seq<Seq<char>>, sep: Seq<char>) -> Seq<char>
    decreases parts.len(),
{
    if parts.len() == 0 {
        Seq::empty()
    } else if parts.len() == 1 {
        parts[0]
    } else {
        join_sep(parts.drop_last(), sep) + sep + parts.last()
    }
}

/// Joins the strings of `parts` with `sep`.
pub fn join_strings(parts: &Vec<String>, sep: &str) -> (r: String)
    ensures
        r@ == join_sep(views(parts@), sep@),
{
    let mut r = String::new();
    let n = parts.len();
    let mut i: usize = 0;
    while i < n
        invariant
            n == parts.len(),
            i <= n,
            r@ == join_sep(views(parts@).take(i as int), sep@),
        decreases n - i,
    {
        let ghost pre = views(parts@).take(i as int);
        let ghost post = views(parts@).take(i + 1);
        assert(post.drop_last() =~= pre);
        if i > 0 {
            push_str(&mut r, sep);
        }
        push_str(&mut r, parts[i].as_str());
        proof {
            if i == 0 {
                assert(post.len() == 1);
            }
        }
        i = i + 1;
    }
    assert(views(parts@).take(n as int) =~= views(parts@));
    r
}

/// A one-element list holding `c` when `cond` holds, else an empty list.
pub open spec fn opt(cond: bool, c: Seq<char>) -> Seq<Seq<char>> {
    if cond {
        seq![c]
    } else {
        Seq::empty()
    }
}

} // verus!
