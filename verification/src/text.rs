//! Character-level string primitives shared by every module.
//!
//! Strings are handled as sequences of Unicode scalar values (`s@`). The
//! whitespace class is the Unicode `White_Space` property that
//! `char::is_whitespace` and `str::trim` use.

use vstd::prelude::*;

verus! {

/// Appends one character to a `String` (`String::push`).
#[verifier::external_body]
pub fn push_char(s: &mut String, c: char)
    ensures
        final(s)@ == old(s)@.push(c),
{
    s.push(c);
}

/// Appends a string slice to a `String` (`String::push_str`).
#[verifier::external_body]
pub fn push_str(s: &mut String, t: &str)
    ensures
        final(s)@ == old(s)@ + t@,
{
    s.push_str(t);
}

/// Compares two string slices for equality (`<str as PartialEq>::eq`).
#[verifier::external_body]
pub fn str_eq(a: &str, b: &str) -> (r: bool)
    ensures
        r == (a@ == b@),
{
    a == b
}

/// Unicode lower-casing of a whole string, as `str::to_lowercase` computes it.
pub uninterp spec fn lowercase_of(s: Seq<char>) -> Seq<char>;

/// `str::to_lowercase`. The mapping (full Unicode case folding with the
/// final-sigma rule) is not restated; the result is named by `lowercase_of`.
#[verifier::external_body]
pub fn to_lowercase(s: &str) -> (r: String)
    ensures
        r@ == lowercase_of(s@),
{
    s.to_lowercase()
}

/// Unicode upper-casing of one character, as `char::to_uppercase` yields it
/// (one to three characters).
pub uninterp spec fn uppercase_of_char(c: char) -> Seq<char>;

/// `char::to_uppercase`, collected. The mapping is not restated; the result
/// is named by `uppercase_of_char`.
#[verifier::external_body]
pub fn char_to_uppercase(c: char) -> (r: Vec<char>)
    ensures
        r@ == uppercase_of_char(c),
{
    c.to_uppercase().collect()
}

/// The Unicode `White_Space` property (PropList.txt), which
/// `char::is_whitespace` tests.
pub open spec fn is_ws(c: char) -> bool {
    ||| '\u{9}' <= c <= '\u{d}'
    ||| c == ' '
    ||| c == '\u{85}'
    ||| c == '\u{a0}'
    ||| c == '\u{1680}'
    ||| '\u{2000}' <= c <= '\u{200a}'
    ||| c == '\u{2028}'
    ||| c == '\u{2029}'
    ||| c == '\u{202f}'
    ||| c == '\u{205f}'
    ||| c == '\u{3000}'
}

pub fn is_whitespace(c: char) -> (r: bool)
    ensures
        r == is_ws(c),
{
    ('\u{9}' <= c && c <= '\u{d}') || c == ' ' || c == '\u{85}' || c == '\u{a0}' || c
        == '\u{1680}' || ('\u{2000}' <= c && c <= '\u{200a}') || c == '\u{2028}' || c
        == '\u{2029}' || c == '\u{202f}' || c == '\u{205f}' || c == '\u{3000}'
}

pub open spec fn is_ascii_upper(c: char) -> bool {
    'A' <= c <= 'Z'
}

pub open spec fn is_ascii_digit(c: char) -> bool {
    '0' <= c <= '9'
}

pub open spec fn is_ascii_alnum(c: char) -> bool {
    ||| is_ascii_digit(c)
    ||| 'a' <= c <= 'z'
    ||| is_ascii_upper(c)
}

/// `char::to_ascii_lowercase`: `A`..=`Z` shift down, everything else stays.
pub open spec fn ascii_lower(c: char) -> char {
    if is_ascii_upper(c) {
        ((c as u32) + 32) as char
    } else {
        c
    }
}

pub fn to_ascii_lower(c: char) -> (r: char)
    ensures
        r == ascii_lower(c),
{
    if 'A' <= c && c <= 'Z' {
        let b = (c as u8) + 32;
        b as char
    } else {
        c
    }
}

/// The characters of `s`, in order.
pub fn chars_of(s: &str) -> (v: Vec<char>)
    ensures
        v@ == s@,
{
    let n = s.unicode_len();
    let mut v: Vec<char> = Vec::new();
    let mut i: usize = 0;
    while i < n
        invariant
            n == s@.len(),
            i <= n,
            v@ == s@.subrange(0, i as int),
        decreases n - i,
    {
        let c = s.get_char(i);
        v.push(c);
        i = i + 1;
    }
    v
}

/// A `String` holding exactly the characters of `v`.
pub fn string_from(v: &Vec<char>) -> (s: String)
    ensures
        s@ == v@,
{
    let mut s = String::new();
    let mut i: usize = 0;
    while i < v.len()
        invariant
            i <= v.len(),
            s@ == v@.subrange(0, i as int),
        decreases v.len() - i,
    {
        push_char(&mut s, v[i]);
        i = i + 1;
    }
    s
}

/// The ASCII digit for `d < 10`.
pub open spec fn digit_char(d: nat) -> char {
    (48 + d) as char
}

/// The decimal rendering of `n`, as `Display` writes an unsigned integer.
pub open spec fn decimal(n: nat) -> Seq<char>
    decreases n,
{
    if n < 10 {
        seq![digit_char(n)]
    } else {
        decimal(n / 10).push(digit_char(n % 10))
    }
}

fn digit(d: u128) -> (r: char)
    requires
        d < 10,
    ensures
        r == digit_char(d as nat),
{
    let b: u8 = 48u8 + (d as u8);
    b as char
}

/// `n.to_string()`.
pub fn decimal_string(n: u128) -> (r: String)
    ensures
        r@ == decimal(n as nat),
    decreases n,
{
    if n < 10 {
        let mut s = String::new();
        push_char(&mut s, digit(n));
        assert(s@ =~= seq![digit_char(n as nat)]);
        s
    } else {
        let mut s = decimal_string(n / 10);
        push_char(&mut s, digit(n % 10));
        s
    }
}

/// A class of characters that a trim removes.
pub enum CharClass {
    /// The Unicode whitespace class.
    Whitespace,
    /// One exact character.
    Exactly(char),
}

pub open spec fn in_class(c: char, class: CharClass) -> bool {
    match class {
        CharClass::Whitespace => is_ws(c),
        CharClass::Exactly(x) => c == x,
    }
}

fn class_contains(c: char, class: &CharClass) -> (r: bool)
    ensures
        r == in_class(c, *class),
{
    match class {
        CharClass::Whitespace => is_whitespace(c),
        CharClass::Exactly(x) => c == *x,
    }
}

/// `s` without its leading run of `class` characters.
pub open spec fn trim_start(s: Seq<char>, class: CharClass) -> Seq<char>
    decreases s.len(),
{
    if s.len() > 0 && in_class(s[0], class) {
        trim_start(s.drop_first(), class)
    } else {
        s
    }
}

/// `s` without its trailing run of `class` characters.
pub open spec fn trim_end(s: Seq<char>, class: CharClass) -> Seq<char>
    decreases s.len(),
{
    if s.len() > 0 && in_class(s.last(), class) {
        trim_end(s.drop_last(), class)
    } else {
        s
    }
}

/// `s` without leading and trailing `class` characters (`str::trim`,
/// `str::trim_matches`).
pub open spec fn trim_both(s: Seq<char>, class: CharClass) -> Seq<char> {
    trim_end(trim_start(s, class), class)
}

/// `str::trim`: no leading or trailing whitespace.
pub open spec fn trimmed(s: Seq<char>) -> Seq<char> {
    trim_both(s, CharClass::Whitespace)
}

/// Index of the first character of `v` outside `class` (or the length).
fn start_outside(v: &Vec<char>, class: &CharClass) -> (k: usize)
    ensures
        k <= v.len(),
        trim_start(v@, *class) == v@.subrange(k as int, v@.len() as int),
{
    let mut k: usize = 0;
    assert(v@.subrange(0, v@.len() as int) =~= v@);
    while k < v.len() && class_contains(v[k], class)
        invariant
            k <= v.len(),
            trim_start(v@, *class) == trim_start(v@.subrange(k as int, v@.len() as int), *class),
        decreases v.len() - k,
    {
        assert(v@.subrange(k as int, v@.len() as int).drop_first() =~= v@.subrange(
            k + 1,
            v@.len() as int,
        ));
        k = k + 1;
    }
    k
}

/// One past the last character of `v[from..]` outside `class` (or `from`).
fn end_outside(v: &Vec<char>, from: usize, class: &CharClass) -> (k: usize)
    requires
        from <= v.len(),
    ensures
        from <= k <= v.len(),
        trim_end(v@.subrange(from as int, v@.len() as int), *class) == v@.subrange(
            from as int,
            k as int,
        ),
{
    let mut k: usize = v.len();
    while k > from && class_contains(v[k - 1], class)
        invariant
            from <= k <= v.len(),
            trim_end(v@.subrange(from as int, v@.len() as int), *class) == trim_end(
                v@.subrange(from as int, k as int),
                *class,
            ),
        decreases k,
    {
        assert(v@.subrange(from as int, k as int).drop_last() =~= v@.subrange(
            from as int,
            k - 1,
        ));
        k = k - 1;
    }
    k
}

/// Copy of `v[from..to]`.
pub fn slice_chars(v: &Vec<char>, from: usize, to: usize) -> (r: Vec<char>)
    requires
        from <= to <= v.len(),
    ensures
        r@ == v@.subrange(from as int, to as int),
{
    let mut r: Vec<char> = Vec::new();
    let mut i = from;
    while i < to
        invariant
            from <= i <= to,
            to <= v.len(),
            r@ == v@.subrange(from as int, i as int),
        decreases to - i,
    {
        r.push(v[i]);
        i = i + 1;
    }
    r
}

/// `v` without leading and trailing `class` characters.
pub fn trim_chars(v: &Vec<char>, class: &CharClass) -> (r: Vec<char>)
    ensures
        r@ == trim_both(v@, *class),
{
    let start = start_outside(v, class);
    let end = end_outside(v, start, class);
    slice_chars(v, start, end)
}

/// `v` without its leading `class` characters.
pub fn trim_start_chars(v: &Vec<char>, class: &CharClass) -> (r: Vec<char>)
    ensures
        r@ == trim_start(v@, *class),
{
    let start = start_outside(v, class);
    slice_chars(v, start, v.len())
}

/// `v` without its trailing `class` characters (`str::trim_end_matches`).
pub fn trim_end_chars(v: &Vec<char>, class: &CharClass) -> (r: Vec<char>)
    ensures
        r@ == trim_end(v@, *class),
{
    let end = end_outside(v, 0, class);
    assert(v@.subrange(0, v@.len() as int) =~= v@);
    slice_chars(v, 0, end)
}

/// The characters of `s` with surrounding whitespace removed (`str::trim`).
pub fn trim(s: &str) -> (r: Vec<char>)
    ensures
        r@ == trimmed(s@),
{
    let v = chars_of(s);
    trim_chars(&v, &CharClass::Whitespace)
}

/// `s.split_whitespace()` joined with single spaces: every maximal run of
/// non-whitespace characters, in order, separated by one `' '`.
pub open spec fn collapse_ws(s: Seq<char>) -> Seq<char>
    decreases s.len(),
{
    if s.len() == 0 {
        Seq::empty()
    } else {
        let p = s.drop_last();
        let c = s.last();
        let r = collapse_ws(p);
        if is_ws(c) {
            r
        } else if p.len() > 0 && is_ws(p.last()) && r.len() > 0 {
            r.push(' ').push(c)
        } else {
            r.push(c)
        }
    }
}

/// `split_whitespace().collect::<Vec<_>>().join(" ")` over `v`.
pub fn collapse_whitespace(v: &Vec<char>) -> (r: Vec<char>)
    ensures
        r@ == collapse_ws(v@),
{
    let mut out: Vec<char> = Vec::new();
    let mut i: usize = 0;
    while i < v.len()
        invariant
            i <= v.len(),
            out@ == collapse_ws(v@.subrange(0, i as int)),
        decreases v.len() - i,
    {
        let c = v[i];
        let ghost pre = v@.subrange(0, i as int);
        assert(v@.subrange(0, i + 1).drop_last() =~= pre);
        assert(v@.subrange(0, i + 1).last() == c);
        if !is_whitespace(c) {
            if i > 0 && is_whitespace(v[i - 1]) && out.len() > 0 {
                assert(pre.last() == v@[i - 1]);
                out.push(' ');
            }
            out.push(c);
        }
        i = i + 1;
    }
    assert(v@.subrange(0, v@.len() as int) =~= v@);
    out
}

/// Every character ASCII-lower-cased (`str::to_ascii_lowercase`).
pub open spec fn ascii_lowered(s: Seq<char>) -> Seq<char> {
    s.map_values(|c: char| ascii_lower(c))
}

pub fn ascii_lowercase(v: &Vec<char>) -> (r: Vec<char>)
    ensures
        r@ == ascii_lowered(v@),
{
    let mut out: Vec<char> = Vec::new();
    let mut i: usize = 0;
    while i < v.len()
        invariant
            i <= v.len(),
            out@ =~= ascii_lowered(v@.subrange(0, i as int)),
        decreases v.len() - i,
    {
        out.push(to_ascii_lower(v[i]));
        i = i + 1;
    }
    assert(v@.subrange(0, v@.len() as int) =~= v@);
    out
}

/// `str::eq_ignore_ascii_case`.
pub open spec fn eq_ignoring_ascii_case(a: Seq<char>, b: Seq<char>) -> bool {
    ascii_lowered(a) == ascii_lowered(b)
}

pub fn eq_ignore_ascii_case(a: &str, b: &str) -> (r: bool)
    ensures
        r == eq_ignoring_ascii_case(a@, b@),
{
    let x = ascii_lowercase(&chars_of(a));
    let y = ascii_lowercase(&chars_of(b));
    chars_eq(&x, &y)
}

/// Whether two character sequences are equal.
pub fn chars_eq(a: &Vec<char>, b: &Vec<char>) -> (r: bool)
    ensures
        r == (a@ == b@),
{
    if a.len() != b.len() {
        return false;
    }
    let mut i: usize = 0;
    while i < a.len()
        invariant
            a.len() == b.len(),
            i <= a.len(),
            forall|j: int| 0 <= j < i ==> a@[j] == b@[j],
        decreases a.len() - i,
    {
        if a[i] != b[i] {
            assert(a@[i as int] != b@[i as int]);
            return false;
        }
        i = i + 1;
    }
    assert(a@ =~= b@);
    true
}

/// `needle` occurs in `hay` starting at `i`.
pub open spec fn occurs_at(hay: Seq<char>, needle: Seq<char>, i: int) -> bool {
    0 <= i && i + needle.len() <= hay.len() && hay.subrange(i, i + needle.len()) == needle
}

/// `i` is the first position at which `needle` occurs in `hay`.
pub open spec fn first_occurrence(hay: Seq<char>, needle: Seq<char>, i: int) -> bool {
    occurs_at(hay, needle, i) && forall|j: int| 0 <= j < i ==> !occurs_at(hay, needle, j)
}

/// `needle` occurs somewhere in `hay` (`str::contains`).
pub open spec fn contains_seq(hay: Seq<char>, needle: Seq<char>) -> bool {
    exists|i: int| occurs_at(hay, needle, i)
}

fn occurs_at_exec(hay: &Vec<char>, needle: &Vec<char>, i: usize) -> (r: bool)
    ensures
        r == occurs_at(hay@, needle@, i as int),
{
    if i > hay.len() || needle.len() > hay.len() - i {
        return false;
    }
    let mut j: usize = 0;
    while j < needle.len()
        invariant
            i + needle.len() <= hay.len(),
            j <= needle.len(),
            forall|m: int| 0 <= m < j ==> hay@[i + m] == needle@[m],
        decreases needle.len() - j,
    {
        if hay[i + j] != needle[j] {
            assert(hay@.subrange(i as int, i + needle@.len())[j as int] != needle@[j as int]);
            return false;
        }
        j = j + 1;
    }
    assert(hay@.subrange(i as int, i + needle@.len()) =~= needle@);
    true
}

/// The first position of `needle` in `hay`, if any (`str::find`).
pub fn find_chars(hay: &Vec<char>, needle: &Vec<char>) -> (r: Option<usize>)
    ensures
        r matches Some(i) ==> first_occurrence(hay@, needle@, i as int),
        r is None ==> !contains_seq(hay@, needle@),
{
    if needle.len() > hay.len() {
        assert forall|j: int| !occurs_at(hay@, needle@, j) by {}
        return None;
    }
    let limit = hay.len() - needle.len();
    let mut i: usize = 0;
    while i < limit
        invariant
            limit == hay.len() - needle.len(),
            i <= limit,
            forall|j: int| 0 <= j < i ==> !occurs_at(hay@, needle@, j),
        decreases limit - i,
    {
        if occurs_at_exec(hay, needle, i) {
            return Some(i);
        }
        i = i + 1;
    }
    if occurs_at_exec(hay, needle, limit) {
        return Some(limit);
    }
    assert forall|j: int| !occurs_at(hay@, needle@, j) by {
        if 0 <= j && j < limit {
        }
    }
    None
}

/// `prefix` starts `s` (`str::starts_with`).
pub open spec fn starts_with(s: Seq<char>, prefix: Seq<char>) -> bool {
    occurs_at(s, prefix, 0)
}

/// `suffix` ends `s` (`str::ends_with`).
pub open spec fn ends_with(s: Seq<char>, suffix: Seq<char>) -> bool {
    occurs_at(s, suffix, s.len() - suffix.len())
}

pub fn starts_with_chars(s: &Vec<char>, prefix: &Vec<char>) -> (r: bool)
    ensures
        r == starts_with(s@, prefix@),
{
    occurs_at_exec(s, prefix, 0)
}

pub fn ends_with_chars(s: &Vec<char>, suffix: &Vec<char>) -> (r: bool)
    ensures
        r == ends_with(s@, suffix@),
{
    if suffix.len() > s.len() {
        return false;
    }
    occurs_at_exec(s, suffix, s.len() - suffix.len())
}


/// `trim_start` removes a prefix: what remains is a suffix of `s` that is
/// empty or starts outside `class`.
pub proof fn lemma_trim_start_shape(s: Seq<char>, class: CharClass)
    ensures
        trim_start(s, class).len() <= s.len(),
        trim_start(s, class) == s.subrange(
            s.len() - trim_start(s, class).len(),
            s.len() as int,
        ),
        trim_start(s, class).len() == 0 || !in_class(trim_start(s, class)[0], class),
    decreases s.len(),
{
    if s.len() > 0 && in_class(s[0], class) {
        lemma_trim_start_shape(s.drop_first(), class);
        let t = trim_start(s.drop_first(), class);
        assert(s.drop_first().subrange(
            s.drop_first().len() - t.len(),
            s.drop_first().len() as int,
        ) =~= s.subrange(s.len() - t.len(), s.len() as int));
    } else {
        assert(s.subrange(0, s.len() as int) =~= s);
    }
}

/// `trim_end` removes a suffix: what remains is a prefix of `s` that is
/// empty or ends outside `class`.
pub proof fn lemma_trim_end_shape(s: Seq<char>, class: CharClass)
    ensures
        trim_end(s, class).len() <= s.len(),
        trim_end(s, class) == s.subrange(0, trim_end(s, class).len() as int),
        trim_end(s, class).len() == 0 || !in_class(trim_end(s, class).last(), class),
    decreases s.len(),
{
    if s.len() > 0 && in_class(s.last(), class) {
        lemma_trim_end_shape(s.drop_last(), class);
        let t = trim_end(s.drop_last(), class);
        assert(s.drop_last().subrange(0, t.len() as int) =~= s.subrange(0, t.len() as int));
    } else {
        assert(s.subrange(0, s.len() as int) =~= s);
    }
}

/// What `trim_both` leaves is a piece of `s` that is empty or starts and
/// ends outside `class`.
pub proof fn lemma_trim_both_shape(s: Seq<char>, class: CharClass)
    ensures
        exists|i: int, j: int| 0 <= i <= j <= s.len() && trim_both(s, class) == s.subrange(i, j),
        trim_both(s, class).len() == 0 || (!in_class(trim_both(s, class)[0], class)
            && !in_class(trim_both(s, class).last(), class)),
{
    let u = trim_start(s, class);
    lemma_trim_start_shape(s, class);
    lemma_trim_end_shape(u, class);
    let t = trim_end(u, class);
    let i = s.len() - u.len();
    assert(t =~= s.subrange(i, i + t.len()));
    if t.len() > 0 {
        assert(t[0] == u[0]);
    }
}

/// A sequence that is empty, or starts and ends outside `class`, is what
/// `trim_both` leaves it.
pub proof fn lemma_trim_both_fixed(t: Seq<char>, class: CharClass)
    requires
        t.len() == 0 || (!in_class(t[0], class) && !in_class(t.last(), class)),
    ensures
        trim_both(t, class) == t,
{
}

/// Trimming twice is trimming once.
pub proof fn lemma_trim_both_idempotent(s: Seq<char>, class: CharClass)
    ensures
        trim_both(trim_both(s, class), class) == trim_both(s, class),
{
    lemma_trim_both_shape(s, class);
    lemma_trim_both_fixed(trim_both(s, class), class);
}

/// The shape `collapse_ws` produces: every whitespace character is a single
/// `' '` strictly inside the text, between two non-whitespace characters.
pub open spec fn is_collapsed(r: Seq<char>) -> bool {
    forall|i: int|
        0 <= i < r.len() && #[trigger] is_ws(r[i]) ==> r[i] == ' ' && 0 < i && i + 1 < r.len()
            && !is_ws(r[i - 1]) && !is_ws(r[i + 1])
}

/// `is_collapsed`, except that the text may end in one `' '`.
pub open spec fn is_collapsed_but_last(r: Seq<char>) -> bool {
    forall|i: int|
        0 <= i < r.len() && #[trigger] is_ws(r[i]) ==> r[i] == ' ' && 0 < i && !is_ws(r[i - 1])
            && (i + 1 < r.len() ==> !is_ws(r[i + 1]))
}

/// `collapse_ws` yields collapsed text, non-empty when `s` holds a
/// non-whitespace character.
pub proof fn lemma_collapse_ws_shape(s: Seq<char>)
    ensures
        is_collapsed(collapse_ws(s)),
        (exists|k: int| 0 <= k < s.len() && !is_ws(#[trigger] s[k])) ==> collapse_ws(s).len() > 0,
    decreases s.len(),
{
    if s.len() > 0 {
        let p = s.drop_last();
        let c = s.last();
        lemma_collapse_ws_shape(p);
        let rp = collapse_ws(p);
        let r = collapse_ws(s);
        if rp.len() > 0 {
            assert(!is_ws(rp[rp.len() - 1]));
        }
        if !is_ws(c) {
            assert(r.last() == c);
            assert forall|i: int| 0 <= i < r.len() && #[trigger] is_ws(r[i]) implies r[i] == ' '
                && 0 < i && i + 1 < r.len() && !is_ws(r[i - 1]) && !is_ws(r[i + 1]) by {
                if i < rp.len() {
                    assert(r[i] == rp[i]);
                    assert(is_ws(rp[i]));
                    if i + 1 < rp.len() {
                        assert(r[i + 1] == rp[i + 1]);
                    }
                    assert(r[i - 1] == rp[i - 1]);
                }
            }
        } else {
            if exists|k: int| 0 <= k < s.len() && !is_ws(#[trigger] s[k]) {
                let k = choose|k: int| 0 <= k < s.len() && !is_ws(#[trigger] s[k]);
                assert(k < p.len());
                assert(!is_ws(p[k]));
            }
        }
    }
}

/// Collapsing text that is already collapsed (but for one trailing `' '`)
/// gives it back without that trailing space.
pub proof fn lemma_collapse_ws_fixed(r: Seq<char>)
    requires
        is_collapsed_but_last(r),
    ensures
        collapse_ws(r) == (if r.len() > 0 && is_ws(r.last()) {
            r.drop_last()
        } else {
            r
        }),
    decreases r.len(),
{
    if r.len() > 0 {
        let p = r.drop_last();
        let c = r.last();
        assert forall|i: int| 0 <= i < p.len() && #[trigger] is_ws(p[i]) implies p[i] == ' ' && 0
            < i && !is_ws(p[i - 1]) && (i + 1 < p.len() ==> !is_ws(p[i + 1])) by {
            assert(is_ws(r[i]));
        }
        lemma_collapse_ws_fixed(p);
        if is_ws(c) {
            assert(is_ws(r[r.len() - 1]));
            if p.len() > 0 {
                assert(!is_ws(p.last()));
            }
        } else if p.len() > 0 && is_ws(p.last()) {
            assert(is_ws(r[p.len() - 1]));
            assert(p.len() >= 2);
            assert(collapse_ws(p) == p.drop_last());
            assert(p.last() == ' ');
            assert(p.drop_last().push(' ').push(c) =~= r);
        } else {
            assert(p.push(c) =~= r);
        }
    }
}

} // verus!
