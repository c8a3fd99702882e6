//! Which identities on a stored row are the user's own.
//!
//! A connected account's profile is stored as `skill:<toolkit>:<connection>:<kind>`
//! rows. The matcher compares *canonical forms* only, so the canonicalisation
//! here is the whole of the matching rule.

use vstd::prelude::*;
use crate::text::{
    ascii_lower, chars_of, collapse_whitespace, collapse_ws, is_ascii_alnum,
    is_ascii_digit, is_ascii_upper, is_ws, lemma_collapse_ws_fixed,
    lemma_collapse_ws_shape, lemma_trim_both_fixed, lemma_trim_both_idempotent,
    lemma_trim_both_shape, lowercase_of, push_str, str_eq, string_from, to_ascii_lower,
    to_lowercase, trim, trim_both, trim_chars, trim_start, trim_start_chars, trimmed, CharClass,
};

verus! {

/// The facet kinds a connected account's profile is stored as.
#[derive(Debug, Clone, Copy, PartialEq, Eq, Structural)]
pub enum IdentityKind {
    /// Platform-canonical immutable id — Slack `U123ABC`, Notion UUID.
    UserId,
    Email,
    /// `@`-style screen name, canonicalised without the leading `@`.
    Handle,
    /// E.164 phone number.
    Phone,
    /// Human display label. Weak signal — never auto-promotes to is_self.
    DisplayName,
    /// Not for matching; kept for UI / prompt rendering.
    AvatarUrl,
    /// Not for matching; kept for UI / prompt rendering.
    ProfileUrl,
}

/// The wire name of a kind.
pub open spec fn kind_name(kind: IdentityKind) -> Seq<char> {
    match kind {
        IdentityKind::UserId => "user_id"@,
        IdentityKind::Email => "email"@,
        IdentityKind::Handle => "handle"@,
        IdentityKind::Phone => "phone"@,
        IdentityKind::DisplayName => "display_name"@,
        IdentityKind::AvatarUrl => "avatar_url"@,
        IdentityKind::ProfileUrl => "profile_url"@,
    }
}

/// The kind a wire name denotes, if any.
pub open spec fn kind_of_name(s: Seq<char>) -> Option<IdentityKind> {
    if s == "user_id"@ {
        Some(IdentityKind::UserId)
    } else if s == "email"@ {
        Some(IdentityKind::Email)
    } else if s == "handle"@ {
        Some(IdentityKind::Handle)
    } else if s == "phone"@ {
        Some(IdentityKind::Phone)
    } else if s == "display_name"@ {
        Some(IdentityKind::DisplayName)
    } else if s == "avatar_url"@ {
        Some(IdentityKind::AvatarUrl)
    } else if s == "profile_url"@ {
        Some(IdentityKind::ProfileUrl)
    } else {
        None
    }
}

/// Kinds that are a real identity signal (not UI-only fields).
pub open spec fn matchable(kind: IdentityKind) -> bool {
    !(kind is AvatarUrl || kind is ProfileUrl)
}

/// A character a canonical phone number keeps.
pub open spec fn is_phone_char(c: char) -> bool {
    is_ascii_digit(c) || c == '+'
}

/// The phone characters of `s`, in order.
pub open spec fn phone_chars(s: Seq<char>) -> Seq<char>
    decreases s.len(),
{
    if s.len() == 0 {
        Seq::empty()
    } else if is_phone_char(s.last()) {
        phone_chars(s.drop_last()).push(s.last())
    } else {
        phone_chars(s.drop_last())
    }
}

/// The canonical storage and lookup form of `raw` for `kind`: `None` when
/// `raw` is blank, otherwise the trimmed value folded per kind.
pub open spec fn canonical_form(kind: IdentityKind, raw: Seq<char>) -> Option<Seq<char>> {
    let t = trimmed(raw);
    if t.len() == 0 {
        None
    } else {
        Some(
            match kind {
                IdentityKind::Email => lowercase_of(t),
                IdentityKind::Handle => lowercase_of(trim_start(t, CharClass::Exactly('@'))),
                IdentityKind::Phone => phone_chars(t),
                IdentityKind::DisplayName => collapse_ws(t),
                _ => t,
            },
        )
    }
}

/// How one character of a token folds into a profile-store key.
pub open spec fn fold_token_char(c: char) -> char {
    let l = ascii_lower(c);
    if is_ascii_alnum(l) || l == '-' || l == '_' {
        l
    } else {
        '_'
    }
}

/// The profile-store key shape of a token: every character folded, then the
/// surrounding `_` removed.
pub open spec fn normalized_token(raw: Seq<char>) -> Seq<char> {
    trim_both(raw.map_values(|c: char| fold_token_char(c)), CharClass::Exactly('_'))
}

/// The profile-store key pattern that finds every toolkit's rows of `kind`.
pub open spec fn self_identity_pattern(kind: IdentityKind) -> Seq<char> {
    "skill:%:%:"@ + kind_name(kind)
}

impl IdentityKind {
    pub fn as_str(self) -> (r: &'static str)
        ensures
            r@ == kind_name(self),
    {
        match self {
            Self::UserId => "user_id",
            Self::Email => "email",
            Self::Handle => "handle",
            Self::Phone => "phone",
            Self::DisplayName => "display_name",
            Self::AvatarUrl => "avatar_url",
            Self::ProfileUrl => "profile_url",
        }
    }

    pub fn parse(s: &str) -> (r: Option<Self>)
        ensures
            r == kind_of_name(s@),
    {
        if str_eq(s, "user_id") {
            Some(Self::UserId)
        } else if str_eq(s, "email") {
            Some(Self::Email)
        } else if str_eq(s, "handle") {
            Some(Self::Handle)
        } else if str_eq(s, "phone") {
            Some(Self::Phone)
        } else if str_eq(s, "display_name") {
            Some(Self::DisplayName)
        } else if str_eq(s, "avatar_url") {
            Some(Self::AvatarUrl)
        } else if str_eq(s, "profile_url") {
            Some(Self::ProfileUrl)
        } else {
            None
        }
    }

    /// True if this kind is a real identity signal worth running through
    /// the matcher (vs. UI-only fields).
    pub fn is_matchable(self) -> (r: bool)
        ensures
            r == matchable(self),
    {
        match self {
            Self::UserId | Self::Email | Self::Handle | Self::Phone | Self::DisplayName => true,
            Self::AvatarUrl | Self::ProfileUrl => false,
        }
    }
}

fn keep_phone_chars(v: &Vec<char>) -> (r: Vec<char>)
    ensures
        r@ == phone_chars(v@),
{
    let mut out: Vec<char> = Vec::new();
    let mut i: usize = 0;
    while i < v.len()
        invariant
            i <= v.len(),
            out@ == phone_chars(v@.subrange(0, i as int)),
        decreases v.len() - i,
    {
        let c = v[i];
        assert(v@.subrange(0, i + 1).drop_last() =~= v@.subrange(0, i as int));
        if ('0' <= c && c <= '9') || c == '+' {
            out.push(c);
        }
        i = i + 1;
    }
    assert(v@.subrange(0, v@.len() as int) =~= v@);
    out
}

/// Canonicalize a raw value for storage and lookup. The same routine runs
/// on the entity side at match time, so equality of canonical forms is the
/// matcher's only test.
pub fn canonicalize(kind: IdentityKind, raw: &str) -> (r: Option<String>)
    ensures
        r matches Some(s) ==> canonical_form(kind, raw@) == Some(s@),
        r is None ==> canonical_form(kind, raw@) is None,
{
    let t = trim(raw);
    if t.len() == 0 {
        return None;
    }
    let folded = match kind {
        IdentityKind::Email => to_lowercase(string_from(&t).as_str()),
        IdentityKind::Handle => {
            let stripped = trim_start_chars(&t, &CharClass::Exactly('@'));
            to_lowercase(string_from(&stripped).as_str())
        },
        IdentityKind::Phone => string_from(&keep_phone_chars(&t)),
        IdentityKind::DisplayName => string_from(&collapse_whitespace(&t)),
        IdentityKind::UserId | IdentityKind::AvatarUrl | IdentityKind::ProfileUrl => string_from(
            &t,
        ),
    };
    Some(folded)
}

/// Fold a token to the shape used in a profile-store key.
pub fn normalize_token(raw: &str) -> (r: String)
    ensures
        r@ == normalized_token(raw@),
{
    let v = chars_of(raw);
    let mut folded: Vec<char> = Vec::new();
    let mut i: usize = 0;
    while i < v.len()
        invariant
            i <= v.len(),
            v@ == raw@,
            folded@ =~= v@.subrange(0, i as int).map_values(|c: char| fold_token_char(c)),
        decreases v.len() - i,
    {
        let lower = to_ascii_lower(v[i]);
        let keep = ('0' <= lower && lower <= '9') || ('a' <= lower && lower <= 'z') || ('A'
            <= lower && lower <= 'Z') || lower == '-' || lower == '_';
        if keep {
            folded.push(lower);
        } else {
            folded.push('_');
        }
        i = i + 1;
    }
    assert(v@.subrange(0, v@.len() as int) =~= v@);
    string_from(&trim_chars(&folded, &CharClass::Exactly('_')))
}

/// Fold a connection identifier the same way.
pub fn normalize_connection_identifier(raw: &str) -> (r: String)
    ensures
        r@ == normalized_token(raw@),
{
    normalize_token(raw)
}

/// The key pattern `skill:%:%:<kind>` that reaches every toolkit's rows of
/// `kind`.
pub fn self_identity_key_pattern(kind: IdentityKind) -> (r: String)
    ensures
        r@ == self_identity_pattern(kind),
{
    let mut pattern = String::new();
    push_str(&mut pattern, "skill:%:%:");
    push_str(&mut pattern, kind.as_str());
    pattern
}

/// The profile-store question a self-identity check asks: the key pattern
/// and the canonical value to look for, or `None` when the answer is `false`
/// without asking (a UI-only kind, or a blank value).
pub open spec fn self_identity_question(kind: IdentityKind, raw: Seq<char>) -> Option<
    (Seq<char>, Seq<char>),
> {
    if !matchable(kind) {
        None
    } else {
        match canonical_form(kind, raw) {
            Some(c) => Some((self_identity_pattern(kind), c)),
            None => None,
        }
    }
}

pub open spec fn pair_view(o: Option<(String, String)>) -> Option<(Seq<char>, Seq<char>)> {
    match o {
        Some(p) => Some((p.0@, p.1@)),
        None => None,
    }
}

/// The question [`is_self_identity_any_toolkit`] puts to the profile store.
pub fn self_identity_lookup(kind: IdentityKind, raw_value: &str) -> (r: Option<(String, String)>)
    ensures
        pair_view(r) == self_identity_question(kind, raw_value@),
{
    if !kind.is_matchable() {
        return None;
    }
    match canonicalize(kind, raw_value) {
        Some(canonical) => Some((self_identity_key_pattern(kind), canonical)),
        None => None,
    }
}

/// Cross-toolkit variant — matches against every connected provider's rows
/// of this kind. An email in a Slack message that matches the user's Gmail
/// address is still "me", regardless of which source produced the chunk.
///
/// `store` answers the profile store's question "does any row under this key
/// pattern (`%` matches any run of characters) hold this canonical value?" of
/// a ready memory client; it is `None` when no client is ready. The store is
/// asked only when [`self_identity_lookup`] has a question, exactly that
/// question, and its answer is the result.
pub fn is_self_identity_any_toolkit<F: Fn(&str, &str) -> bool>(
    kind: IdentityKind,
    raw_value: &str,
    store: Option<&F>,
) -> (r: bool)
    requires
        store matches Some(f) ==> forall|p: &str, c: &str| #[trigger] f.requires((p, c)),
    ensures
        match self_identity_question(kind, raw_value@) {
            None => !r,
            Some(q) => match store {
                None => !r,
                Some(f) => exists|p: &str, c: &str|
                    p@ == q.0 && c@ == q.1 && #[trigger] f.ensures((p, c), r),
            },
        },
{
    match self_identity_lookup(kind, raw_value) {
        None => false,
        Some((pattern, canonical)) => match store {
            None => false,
            Some(store) => {
                let p = pattern.as_str();
                let c = canonical.as_str();
                let answer = store(p, c);
                assert(store.ensures((p, c), answer));
                answer
            },
        },
    }
}

/// Every kind's wire name parses back to that kind, so the names are also
/// pairwise distinct.
pub proof fn law_kind_name_round_trip(kind: IdentityKind)
    ensures
        kind_of_name(kind_name(kind)) == Some(kind),
{
    reveal_strlit("user_id");
    reveal_strlit("email");
    reveal_strlit("handle");
    reveal_strlit("phone");
    reveal_strlit("display_name");
    reveal_strlit("avatar_url");
    reveal_strlit("profile_url");
    assert("user_id"@[0] == 'u' && "email"@[0] == 'e' && "handle"@[0] == 'h');
    assert("phone"@[0] == 'p' && "display_name"@[0] == 'd' && "avatar_url"@[0] == 'a');
    assert("profile_url"@[1] == 'r' && "phone"@[1] == 'h');
    match kind {
        IdentityKind::UserId => assert(kind_of_name("user_id"@) == Some(kind)),
        IdentityKind::Email => assert(kind_of_name("email"@) == Some(kind)),
        IdentityKind::Handle => assert(kind_of_name("handle"@) == Some(kind)),
        IdentityKind::Phone => assert(kind_of_name("phone"@) == Some(kind)),
        IdentityKind::DisplayName => assert(kind_of_name("display_name"@) == Some(kind)),
        IdentityKind::AvatarUrl => assert(kind_of_name("avatar_url"@) == Some(kind)),
        IdentityKind::ProfileUrl => assert(kind_of_name("profile_url"@) == Some(kind)),
    }
}

proof fn lemma_phone_chars_shape(s: Seq<char>)
    ensures
        forall|i: int| 0 <= i < phone_chars(s).len() ==> is_phone_char(#[trigger] phone_chars(s)[i]),
    decreases s.len(),
{
    if s.len() > 0 {
        let p = s.drop_last();
        lemma_phone_chars_shape(p);
        let r = phone_chars(s);
        assert forall|i: int| 0 <= i < r.len() implies is_phone_char(#[trigger] r[i]) by {
            if i < phone_chars(p).len() {
                assert(r[i] == phone_chars(p)[i]);
            }
        }
    }
}

proof fn lemma_phone_chars_fixed(s: Seq<char>)
    requires
        forall|i: int| 0 <= i < s.len() ==> is_phone_char(#[trigger] s[i]),
    ensures
        phone_chars(s) == s,
    decreases s.len(),
{
    if s.len() > 0 {
        assert(is_phone_char(s[s.len() - 1]));
        lemma_phone_chars_fixed(s.drop_last());
        assert(s.drop_last().push(s.last()) =~= s);
    }
}

/// Canonicalising a canonical value gives it back: storage and lookup can
/// canonicalise the same value any number of times. Stated for the kinds
/// whose folding this crate spells out, all but `Email` and `Handle` (their
/// Unicode lower-casing is named, not restated); a canonical phone number
/// must have kept at least one digit or `+`, since an empty one is blank.
pub proof fn law_canonical_form_is_stable(kind: IdentityKind, raw: Seq<char>, c: Seq<char>)
    requires
        canonical_form(kind, raw) == Some(c),
        !(kind is Email),
        !(kind is Handle),
        kind is Phone ==> c.len() > 0,
    ensures
        canonical_form(kind, c) == Some(c),
{
    let t = trimmed(raw);
    lemma_trim_both_shape(raw, CharClass::Whitespace);
    assert(t.len() > 0);
    assert(!is_ws(t[0]));
    match kind {
        IdentityKind::Phone => {
            lemma_phone_chars_shape(t);
            assert(is_phone_char(c[0]));
            assert(is_phone_char(c[c.len() - 1]));
            lemma_trim_both_fixed(c, CharClass::Whitespace);
            lemma_phone_chars_fixed(c);
        },
        IdentityKind::DisplayName => {
            lemma_collapse_ws_shape(t);
            assert(c.len() > 0);
            if is_ws(c[0]) {
                assert(false);
            }
            if is_ws(c[c.len() - 1]) {
                assert(false);
            }
            lemma_trim_both_fixed(c, CharClass::Whitespace);
            lemma_collapse_ws_fixed(c);
        },
        _ => {
            lemma_trim_both_idempotent(raw, CharClass::Whitespace);
        },
    }
}

/// The characters a profile-store key token is made of.
pub open spec fn is_token_char(c: char) -> bool {
    is_ascii_digit(c) || ('a' <= c <= 'z') || c == '-' || c == '_'
}

/// Folding a token twice is folding it once: a normalised token is its own
/// normalisation.
pub proof fn law_normalize_token_idempotent(raw: Seq<char>)
    ensures
        normalized_token(normalized_token(raw)) == normalized_token(raw),
{
    let m = raw.map_values(|c: char| fold_token_char(c));
    let class = CharClass::Exactly('_');
    assert forall|i: int| 0 <= i < m.len() implies is_token_char(#[trigger] m[i]) by {
        let c = raw[i];
        if is_ascii_upper(c) {
            assert('a' <= ascii_lower(c) <= 'z');
        }
    }
    let n = trim_both(m, class);
    lemma_trim_both_shape(m, class);
    let (i0, j0) = choose|i: int, j: int| 0 <= i <= j <= m.len() && n == m.subrange(i, j);
    assert forall|k: int| 0 <= k < n.len() implies is_token_char(#[trigger] n[k]) by {
        assert(n[k] == m[i0 + k]);
    }
    assert(n.map_values(|c: char| fold_token_char(c)) =~= n);
    lemma_trim_both_idempotent(m, class);
}

/// A character a phone number is compared by: an ASCII digit or `+`.
pub open spec fn keeps_in_phone(c: char) -> bool {
    ('0' <= c <= '9') || c == '+'
}

/// The filter that keeps a phone number's digits and `+` signs.
pub open spec fn phone_filter() -> spec_fn(char) -> bool {
    |c: char| keeps_in_phone(c)
}

proof fn lemma_phone_chars_filter(s: Seq<char>)
    ensures
        phone_chars(s) == s.filter(phone_filter()),
    decreases s.len(),
{
    reveal(Seq::filter);
    if s.len() > 0 {
        lemma_phone_chars_filter(s.drop_last());
    }
}

/// A canonical phone number is the raw value's ASCII digits and `+` signs,
/// in order, and nothing else: every character of it is `0`..`9` or `+`, so
/// formatting punctuation (spaces, dots, dashes, brackets) never reaches the
/// stored or matched form.
pub proof fn law_phone_keeps_only_digits_and_plus(raw: Seq<char>, c: Seq<char>)
    requires
        canonical_form(IdentityKind::Phone, raw) == Some(c),
    ensures
        c == trimmed(raw).filter(phone_filter()),
        forall|i: int| 0 <= i < c.len() ==> ('0' <= #[trigger] c[i] <= '9') || c[i] == '+',
{
    lemma_phone_chars_filter(trimmed(raw));
    assert forall|i: int| 0 <= i < c.len() implies ('0' <= #[trigger] c[i] <= '9') || c[i] == '+' by {
        trimmed(raw).lemma_filter_pred(phone_filter(), i);
    }
}

/// Two phone values that differ only in formatting canonicalise alike: when
/// their digits and `+` signs agree, so do their canonical forms (for
/// example `+1.555.010.9999` and `+1 555 010 9999`).
pub proof fn law_phone_formatting_is_ignored(a: Seq<char>, b: Seq<char>)
    requires
        trimmed(a).len() > 0,
        trimmed(b).len() > 0,
        trimmed(a).filter(phone_filter()) == trimmed(b).filter(phone_filter()),
    ensures
        canonical_form(IdentityKind::Phone, a) == canonical_form(IdentityKind::Phone, b),
{
    lemma_phone_chars_filter(trimmed(a));
    lemma_phone_chars_filter(trimmed(b));
}

} // verus!
