//! Byte-bounded text previews that never cut inside a UTF-8 character.

use vstd::prelude::*;
use crate::text::{chars_of, slice_chars, string_from};

verus! {

/// The number of bytes `c` takes in UTF-8.
pub open spec fn char_len(c: char) -> nat {
    if (c as u32) < 0x80 {
        1
    } else if (c as u32) < 0x800 {
        2
    } else if (c as u32) < 0x10000 {
        3
    } else {
        4
    }
}

/// The number of bytes `s` takes in UTF-8.
pub open spec fn utf8_len(s: Seq<char>) -> nat
    decreases s.len(),
{
    if s.len() == 0 {
        0
    } else {
        utf8_len(s.drop_last()) + char_len(s.last())
    }
}

pub proof fn lemma_utf8_len_push_front(c: char, t: Seq<char>)
    ensures
        utf8_len(seq![c] + t) == char_len(c) + utf8_len(t),
    decreases t.len(),
{
    if t.len() > 0 {
        lemma_utf8_len_push_front(c, t.drop_last());
        assert((seq![c] + t).drop_last() =~= seq![c] + t.drop_last());
        assert((seq![c] + t).last() == t.last());
    } else {
        assert(seq![c] + t =~= seq![c]);
        assert(seq![c].drop_last() =~= Seq::<char>::empty());
        assert(utf8_len(Seq::<char>::empty()) == 0);
        assert(seq![c].last() == c);
    }
}

fn byte_len(c: char) -> (r: usize)
    ensures
        r == char_len(c),
{
    let v = c as u32;
    if v < 0x80 {
        1
    } else if v < 0x800 {
        2
    } else if v < 0x10000 {
        3
    } else {
        4
    }
}

/// The longest prefix of `text` that fits in `max_bytes` bytes of UTF-8.
pub fn utf8_prefix(text: &str, max_bytes: usize) -> (r: String)
    ensures
        exists|k: int|
            #![trigger text@.subrange(0, k)]
            0 <= k <= text@.len() && r@ == text@.subrange(0, k) && utf8_len(r@) <= max_bytes && (k
                < text@.len() ==> utf8_len(r@) + char_len(text@[k]) > max_bytes),
{
    let v = chars_of(text);
    let mut used: usize = 0;
    let mut k: usize = 0;
    while k < v.len() && byte_len(v[k]) <= max_bytes - used
        invariant
            v@ == text@,
            k <= v.len(),
            used == utf8_len(v@.subrange(0, k as int)),
            used <= max_bytes,
        decreases v.len() - k,
    {
        let n = byte_len(v[k]);
        assert(v@.subrange(0, k + 1).drop_last() =~= v@.subrange(0, k as int));
        used = used + n;
        k = k + 1;
    }
    let r = slice_chars(&v, 0, k);
    assert(text@.subrange(0, k as int) == r@);
    string_from(&r)
}

/// The longest suffix of `text` that fits in `max_bytes` bytes of UTF-8.
pub fn utf8_suffix(text: &str, max_bytes: usize) -> (r: String)
    ensures
        exists|k: int|
            #![trigger text@.subrange(k, text@.len() as int)]
            0 <= k <= text@.len() && r@ == text@.subrange(k, text@.len() as int) && utf8_len(r@)
                <= max_bytes && (k > 0 ==> utf8_len(r@) + char_len(text@[k - 1]) > max_bytes),
{
    let v = chars_of(text);
    let mut used: usize = 0;
    let mut k: usize = v.len();
    assert(v@.subrange(k as int, v@.len() as int) =~= Seq::<char>::empty());
    while k > 0 && byte_len(v[k - 1]) <= max_bytes - used
        invariant
            v@ == text@,
            k <= v.len(),
            used == utf8_len(v@.subrange(k as int, v@.len() as int)),
            used <= max_bytes,
        decreases k,
    {
        let n = byte_len(v[k - 1]);
        proof {
            let t = v@.subrange(k as int, v@.len() as int);
            lemma_utf8_len_push_front(v@[k - 1], t);
            assert(v@.subrange(k - 1, v@.len() as int) =~= seq![v@[k - 1]] + t);
        }
        used = used + n;
        k = k - 1;
    }
    let r = slice_chars(&v, k, v.len());
    assert(text@.subrange(k as int, text@.len() as int) == r@);
    string_from(&r)
}

} // verus!
