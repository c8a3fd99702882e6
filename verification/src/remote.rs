//! Provider-facing names for remote engines: query-string escaping and the
//! bounded, stable container tags a namespace is filed under.

use sha2::{Digest, Sha256};
use vstd::prelude::*;
use vstd::utf8::encode_utf8;
use crate::text::{push_char, push_str};

verus! {

/// SHA-256 of a byte string.
pub uninterp spec fn sha256_of(data: Seq<u8>) -> Seq<u8>;

/// `sha2::Sha256::digest`: the 32-byte SHA-256 digest of `data` (the
/// algorithm itself is not restated; its output size is fixed at 32 bytes).
#[verifier::external_body]
pub(crate) fn sha256(data: &[u8]) -> (r: Vec<u8>)
    ensures
        r@ == sha256_of(data@),
        r@.len() == 32,
{
    Sha256::digest(data).to_vec()
}

/// A byte kept as itself in a query string: ASCII letters, digits, `-._~`.
pub open spec fn unreserved(b: u8) -> bool {
    ||| 0x30 <= b <= 0x39
    ||| 0x41 <= b <= 0x5a
    ||| 0x61 <= b <= 0x7a
    ||| b == 0x2d
    ||| b == 0x2e
    ||| b == 0x5f
    ||| b == 0x7e
}

/// Upper-case hexadecimal digit for `n < 16`.
pub open spec fn hex_upper(n: u8) -> char {
    if n < 10 {
        ((n + 0x30) as u8) as char
    } else {
        ((n - 10 + 0x41) as u8) as char
    }
}

/// Lower-case hexadecimal digit for `n < 16`.
pub open spec fn hex_lower(n: u8) -> char {
    if n < 10 {
        ((n + 0x30) as u8) as char
    } else {
        ((n - 10 + 0x61) as u8) as char
    }
}

/// Percent-encoding of a byte string: unreserved bytes stand for themselves,
/// every other byte is `%` and two upper-case hex digits.
pub open spec fn percent_encoded(bytes: Seq<u8>) -> Seq<char>
    decreases bytes.len(),
{
    if bytes.len() == 0 {
        Seq::empty()
    } else {
        let b = bytes.last();
        percent_encoded(bytes.drop_last()) + if unreserved(b) {
            seq![b as char]
        } else {
            seq!['%', hex_upper(b / 16), hex_upper(b % 16)]
        }
    }
}

/// Lower-case hexadecimal rendering of a byte string.
pub open spec fn hex_of(bytes: Seq<u8>) -> Seq<char>
    decreases bytes.len(),
{
    if bytes.len() == 0 {
        Seq::empty()
    } else {
        let b = bytes.last();
        hex_of(bytes.drop_last()) + seq![hex_lower(b / 16), hex_lower(b % 16)]
    }
}

fn hex_digit_upper(n: u8) -> (r: char)
    requires
        n < 16,
    ensures
        r == hex_upper(n),
{
    if n < 10 {
        (n + 0x30) as char
    } else {
        (n - 10 + 0x41) as char
    }
}

fn hex_digit_lower(n: u8) -> (r: char)
    requires
        n < 16,
    ensures
        r == hex_lower(n),
{
    if n < 10 {
        (n + 0x30) as char
    } else {
        (n - 10 + 0x61) as char
    }
}

/// Percent-encode `s` byte by byte for a query string. The cursor a remote
/// engine returns is opaque, so every reserved character is escaped, not only
/// the ones a scope happens to carry.
pub fn urlencoding(s: &str) -> (r: String)
    ensures
        r@ == percent_encoded(encode_utf8(s@)),
{
    let bytes = s.as_bytes();
    let mut out = String::new();
    let mut i: usize = 0;
    while i < bytes.len()
        invariant
            bytes@ == encode_utf8(s@),
            i <= bytes@.len(),
            out@ == percent_encoded(bytes@.subrange(0, i as int)),
        decreases bytes.len() - i,
    {
        let b = bytes[i];
        assert(bytes@.subrange(0, i + 1).drop_last() =~= bytes@.subrange(0, i as int));
        let keep = (0x30 <= b && b <= 0x39) || (0x41 <= b && b <= 0x5a) || (0x61 <= b && b <= 0x7a)
            || b == 0x2d || b == 0x2e || b == 0x5f || b == 0x7e;
        let ghost before = out@;
        if keep {
            push_char(&mut out, b as char);
            assert(out@ =~= before + seq![b as char]);
        } else {
            push_char(&mut out, '%');
            push_char(&mut out, hex_digit_upper(b / 16));
            push_char(&mut out, hex_digit_upper(b % 16));
            assert(out@ =~= before + seq!['%', hex_upper(b / 16), hex_upper(b % 16)]);
        }
        i = i + 1;
    }
    assert(bytes@.subrange(0, bytes@.len() as int) =~= bytes@);
    out
}

/// The value of an upper-case hexadecimal digit.
pub open spec fn hex_value(c: char) -> int {
    if '0' <= c <= '9' {
        c as int - 0x30
    } else {
        c as int - 0x41 + 10
    }
}

/// Reading a percent-encoded string back into bytes, from its end: a `%` two
/// places before the end starts an escape, anything else is a byte as itself.
pub open spec fn percent_decoded(s: Seq<char>) -> Seq<u8>
    decreases s.len(),
{
    if s.len() == 0 {
        Seq::empty()
    } else if s.len() >= 3 && s[s.len() - 3] == '%' {
        percent_decoded(s.subrange(0, s.len() - 3)).push(
            (hex_value(s[s.len() - 2]) * 16 + hex_value(s[s.len() - 1])) as u8,
        )
    } else {
        percent_decoded(s.drop_last()).push(s.last() as u8)
    }
}

proof fn lemma_hex_upper_value(n: u8)
    requires
        n < 16,
    ensures
        hex_value(hex_upper(n)) == n,
        hex_upper(n) != '%',
{
}

/// The last two characters of an encoding are never `%`: a `%` is always
/// followed by its two digits.
proof fn lemma_encoding_tail(bytes: Seq<u8>)
    ensures
        forall|i: int|
            percent_encoded(bytes).len() - 2 <= i < percent_encoded(bytes).len() && 0 <= i
                ==> #[trigger] percent_encoded(bytes)[i] != '%',
    decreases bytes.len(),
{
    if bytes.len() > 0 {
        let p = bytes.drop_last();
        let b = bytes.last();
        lemma_encoding_tail(p);
        lemma_hex_upper_value(b / 16);
        lemma_hex_upper_value(b % 16);
        let e = percent_encoded(bytes);
        let pe = percent_encoded(p);
        assert forall|i: int| e.len() - 2 <= i < e.len() && 0 <= i implies #[trigger] e[i]
            != '%' by {
            if i < pe.len() {
                assert(e[i] == pe[i]);
            }
        }
    }
}

proof fn lemma_percent_round_trip(bytes: Seq<u8>)
    ensures
        percent_decoded(percent_encoded(bytes)) == bytes,
    decreases bytes.len(),
{
    if bytes.len() > 0 {
        let p = bytes.drop_last();
        let b = bytes.last();
        lemma_percent_round_trip(p);
        lemma_encoding_tail(p);
        let pe = percent_encoded(p);
        let e = percent_encoded(bytes);
        if unreserved(b) {
            assert(e =~= pe.push(b as char));
            if e.len() >= 3 {
                assert(e[e.len() - 3] == pe[pe.len() - 2]);
            }
            assert(e.drop_last() =~= pe);
            assert((b as char) as u8 == b);
        } else {
            lemma_hex_upper_value(b / 16);
            lemma_hex_upper_value(b % 16);
            assert(e.subrange(0, e.len() - 3) =~= pe);
            assert(e[e.len() - 3] == '%');
            assert((b / 16) * 16 + b % 16 == b);
        }
        assert(p.push(b) =~= bytes);
    }
}

/// Query-string escaping loses nothing: two strings that escape alike are
/// the same string, multi-byte UTF-8 included, so an escaped cursor always
/// reaches the engine as the cursor it returned.
pub proof fn law_urlencoding_is_recoverable(a: Seq<char>, b: Seq<char>)
    requires
        percent_encoded(encode_utf8(a)) == percent_encoded(encode_utf8(b)),
    ensures
        a == b,
{
    lemma_percent_round_trip(encode_utf8(a));
    lemma_percent_round_trip(encode_utf8(b));
    vstd::utf8::encode_utf8_decode_utf8(a);
    vstd::utf8::encode_utf8_decode_utf8(b);
}

/// The prefix every container tag this adapter writes carries.
pub open spec fn container_tag_prefix() -> Seq<char> {
    "tinymemory:tm_"@
}

/// The container tag a namespace is filed under: the prefix and the
/// lower-case hex SHA-256 of the namespace's UTF-8 bytes. Any namespace the
/// contract accepts — however long, whatever characters — maps to a tag the
/// remote API accepts.
pub open spec fn container_tag_of(namespace: Seq<char>) -> Seq<char> {
    container_tag_prefix() + hex_of(sha256_of(encode_utf8(namespace)))
}

pub open spec fn tag_char(c: char) -> bool {
    ||| '0' <= c <= '9'
    ||| 'a' <= c <= 'z'
    ||| 'A' <= c <= 'Z'
    ||| c == '_'
    ||| c == ':'
    ||| c == '-'
}

pub proof fn lemma_hex_of_shape(bytes: Seq<u8>)
    ensures
        hex_of(bytes).len() == 2 * bytes.len(),
        forall|i: int|
            0 <= i < hex_of(bytes).len() ==> ('0' <= #[trigger] hex_of(bytes)[i] <= '9' || 'a'
                <= hex_of(bytes)[i] <= 'f'),
    decreases bytes.len(),
{
    if bytes.len() > 0 {
        lemma_hex_of_shape(bytes.drop_last());
        let b = bytes.last();
        assert(b / 16 < 16 && b % 16 < 16);
        let h = hex_of(bytes);
        let p = hex_of(bytes.drop_last());
        assert forall|i: int| 0 <= i < h.len() implies ('0' <= #[trigger] h[i] <= '9' || 'a' <= h[i]
            <= 'f') by {
            if i < p.len() {
                assert(h[i] == p[i]);
            }
        }
    }
}

/// Lower-case hexadecimal rendering of `bytes`.
pub fn hex_string(bytes: &Vec<u8>) -> (r: String)
    ensures
        r@ == hex_of(bytes@),
{
    let mut out = String::new();
    let mut i: usize = 0;
    while i < bytes.len()
        invariant
            i <= bytes@.len(),
            out@ == hex_of(bytes@.subrange(0, i as int)),
        decreases bytes.len() - i,
    {
        let b = bytes[i];
        assert(bytes@.subrange(0, i + 1).drop_last() =~= bytes@.subrange(0, i as int));
        push_char(&mut out, hex_digit_lower(b / 16));
        push_char(&mut out, hex_digit_lower(b % 16));
        i = i + 1;
    }
    assert(bytes@.subrange(0, bytes@.len() as int) =~= bytes@);
    out
}

/// The container tag for `namespace`.
pub fn container_tag(namespace: &str) -> (r: String)
    ensures
        r@ == container_tag_of(namespace@),
        r@.len() <= 100,
        forall|i: int| 0 <= i < r@.len() ==> tag_char(#[trigger] r@[i]),
{
    let digest = sha256(namespace.as_bytes());
    let mut out = "tinymemory:tm_".to_owned();
    proof {
        reveal_strlit("tinymemory:tm_");
    }
    let hex = hex_string(&digest);
    push_str(&mut out, hex.as_str());
    proof {
        lemma_hex_of_shape(digest@);
        let h = hex_of(digest@);
        assert(out@ =~= container_tag_prefix() + h);
        assert forall|i: int| 0 <= i < out@.len() implies tag_char(#[trigger] out@[i]) by {
            if i >= 14 {
                assert(out@[i] == h[i - 14]);
            }
        }
    }
    out
}

} // verus!
