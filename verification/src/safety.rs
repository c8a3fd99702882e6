//! Canonical storage addresses for caller-supplied memory identifiers.
//!
//! An identifier is an address, not content: whatever these return is what a
//! row is stored under, so every read, update and delete that addresses a row
//! has to canonicalise through the same functions, or it looks up a row the
//! write never created.
//!
//! Whether an identifier carries personal data, and what its redacted form
//! is, is decided by the engine's PII scanner. These functions take that
//! verdict as a [`PiiScan`] of the value they canonicalise and own everything
//! around it.

use vstd::prelude::*;
use crate::text::{chars_of, string_from, trim, trimmed};

verus! {

/// The PII scanner's verdict on one value: its strict boundary predicate
/// (`has_likely_pii`), and the value with every detected span replaced by a
/// `[REDACTED_PII_*]` placeholder (`redact_pii`).
#[derive(Debug)]
pub struct PiiScan {
    pub has_likely_pii: bool,
    pub redacted: String,
}

/// The canonical form of `value`: itself unless the strict predicate flags
/// it, in which case its redaction. Only formatted, keyword-gated national
/// ids are rewritten, so two distinct contacts whose ids are bare digit runs
/// are never mapped onto one address.
pub open spec fn canonical_of(value: Seq<char>, scan: PiiScan) -> Seq<char> {
    if scan.has_likely_pii {
        scan.redacted@
    } else {
        value
    }
}

/// `s` with every `[` and `]` removed.
pub open spec fn without_brackets(s: Seq<char>) -> Seq<char>
    decreases s.len(),
{
    if s.len() == 0 {
        s
    } else if s.last() == '[' || s.last() == ']' {
        without_brackets(s.drop_last())
    } else {
        without_brackets(s.drop_last()).push(s.last())
    }
}

/// The delimiter-preserving logical namespace: the canonical form of the
/// trimmed namespace with its placeholder brackets stripped (a namespace
/// scope rejects `[` and `]`), or `fallback` when that leaves nothing — so
/// the logical column never diverges from a storage address that blank
/// input also maps to `fallback`.
pub open spec fn logical_namespace_of(raw: Seq<char>, scan: PiiScan, fallback: Seq<char>) -> Seq<
    char,
> {
    let stripped = without_brackets(canonical_of(trimmed(raw), scan));
    if stripped.len() == 0 {
        fallback
    } else {
        stripped
    }
}

/// Canonical storage form of a caller-supplied memory identifier — a
/// namespace, a document key, or a KV key. `scan` is the scanner's verdict
/// on `value`.
pub fn canonical_identifier(value: &str, scan: &PiiScan) -> (r: String)
    ensures
        r@ == canonical_of(value@, *scan),
{
    if !scan.has_likely_pii {
        return value.to_owned();
    }
    scan.redacted.clone()
}

fn strip_brackets(v: &Vec<char>) -> (r: Vec<char>)
    ensures
        r@ == without_brackets(v@),
{
    let mut out: Vec<char> = Vec::new();
    let mut i: usize = 0;
    while i < v.len()
        invariant
            i <= v.len(),
            out@ == without_brackets(v@.subrange(0, i as int)),
        decreases v.len() - i,
    {
        assert(v@.subrange(0, i + 1).drop_last() =~= v@.subrange(0, i as int));
        if v[i] != '[' && v[i] != ']' {
            out.push(v[i]);
        }
        i = i + 1;
    }
    assert(v@.subrange(0, v@.len() as int) =~= v@);
    out
}

/// Canonical form of the logical namespace reported back to callers. `scan`
/// is the scanner's verdict on the *trimmed* namespace.
pub fn canonical_logical_namespace(raw: &str, scan: &PiiScan, fallback: &str) -> (r: String)
    ensures
        r@ == logical_namespace_of(raw@, *scan, fallback@),
{
    let trimmed_raw = string_from(&trim(raw));
    let canonical = canonical_identifier(trimmed_raw.as_str(), scan);
    let stripped = strip_brackets(&chars_of(canonical.as_str()));
    if stripped.len() == 0 {
        fallback.to_owned()
    } else {
        string_from(&stripped)
    }
}

/// Canonical storage form of a document key: trim, then
/// [`canonical_identifier`] — the exact transform the write path applies, so
/// by-key reads cannot drift from it. `scan` is the scanner's verdict on the
/// trimmed key.
pub fn canonical_document_key(key: &str, scan: &PiiScan) -> (r: String)
    ensures
        r@ == canonical_of(trimmed(key@), *scan),
{
    let trimmed_key = string_from(&trim(key));
    canonical_identifier(trimmed_key.as_str(), scan)
}

/// Canonicalising a canonical identifier changes nothing. The scanner's side
/// of this is the two facts it documents: its verdict on a value is the same
/// each time it is asked, and a redaction carries no PII pattern of its own.
/// `first` is the verdict on `value`, `second` the verdict on what the first
/// canonicalisation gave.
pub proof fn law_canonical_identifier_idempotent(value: Seq<char>, first: PiiScan, second: PiiScan)
    requires
        first.has_likely_pii ==> !second.has_likely_pii,
        !first.has_likely_pii ==> second.has_likely_pii == first.has_likely_pii,
    ensures
        canonical_of(canonical_of(value, first), second) == canonical_of(value, first),
{
}

proof fn lemma_without_brackets_shape(s: Seq<char>)
    ensures
        forall|i: int|
            0 <= i < without_brackets(s).len() ==> #[trigger] without_brackets(s)[i] != '['
                && without_brackets(s)[i] != ']',
    decreases s.len(),
{
    if s.len() > 0 {
        let p = s.drop_last();
        lemma_without_brackets_shape(p);
        let r = without_brackets(s);
        assert forall|i: int| 0 <= i < r.len() implies #[trigger] r[i] != '[' && r[i] != ']' by {
            if i < without_brackets(p).len() {
                assert(r[i] == without_brackets(p)[i]);
            }
        }
    }
}

/// The logical namespace is never blank and never holds a bracket, given a
/// fallback that is neither: it always parses back as a namespace scope.
pub proof fn law_logical_namespace_is_scope_valid(raw: Seq<char>, scan: PiiScan, fallback: Seq<char>)
    requires
        fallback.len() > 0,
        forall|i: int| 0 <= i < fallback.len() ==> fallback[i] != '[' && fallback[i] != ']',
    ensures
        logical_namespace_of(raw, scan, fallback).len() > 0,
        forall|i: int|
            0 <= i < logical_namespace_of(raw, scan, fallback).len() ==> #[trigger] logical_namespace_of(
                raw,
                scan,
                fallback,
            )[i] != '[' && logical_namespace_of(raw, scan, fallback)[i] != ']',
{
    lemma_without_brackets_shape(canonical_of(trimmed(raw), scan));
}

} // verus!
