//! Which failed Composio calls are worth another attempt.
//!
//! A 4xx is permanent: an invalid key must fail once, not retry with backoff.
//! Only rate limiting (429), upstream failures (5xx) and transport failures
//! are retried. The status is read from the failure message's status clause
//! — the first `failed with HTTP <status>` — so a response body quoted after
//! it cannot forge a retryable status.

use vstd::prelude::*;
use crate::text::{chars_of, contains_seq, find_chars, first_occurrence, is_ascii_digit, occurs_at};

verus! {

/// The words that introduce the status of a failed request.
pub open spec fn status_clause() -> Seq<char> {
    "failed with HTTP "@
}

/// The words that mark a transport failure (connect, read, timeout).
pub open spec fn transport_clause() -> Seq<char> {
    "transport error"@
}

/// The three characters at `k` spell a retryable status: 429 or 5xx.
pub open spec fn retryable_status_at(s: Seq<char>, k: int) -> bool {
    &&& 0 <= k
    &&& k + 3 <= s.len()
    &&& {
        ||| (s[k] == '4' && s[k + 1] == '2' && s[k + 2] == '9')
        ||| (s[k] == '5' && is_ascii_digit(s[k + 1]) && is_ascii_digit(s[k + 2]))
    }
}

/// Whether a failure message describes a retryable failure.
pub open spec fn retryable_message(s: Seq<char>) -> bool {
    if contains_seq(s, status_clause()) {
        exists|i: int|
            #![trigger first_occurrence(s, status_clause(), i)]
            first_occurrence(s, status_clause(), i) && retryable_status_at(
                s,
                i + status_clause().len(),
            )
    } else {
        contains_seq(s, transport_clause())
    }
}

fn status_retryable(s: &Vec<char>, k: usize) -> (r: bool)
    ensures
        r == retryable_status_at(s@, k as int),
{
    if k > s.len() || s.len() - k < 3 {
        return false;
    }
    let a = s[k];
    let b = s[k + 1];
    let c = s[k + 2];
    (a == '4' && b == '2' && c == '9') || (a == '5' && '0' <= b && b <= '9' && '0' <= c && c
        <= '9')
}

/// Whether the failure `message` is worth another attempt.
pub fn retryable_transport_error(message: &str) -> (r: bool)
    ensures
        r == retryable_message(message@),
{
    let s = chars_of(message);
    let clause = chars_of("failed with HTTP ");
    match find_chars(&s, &clause) {
        Some(i) => {
            proof {
                assert(contains_seq(s@, status_clause()));
                assert forall|j: int| first_occurrence(s@, status_clause(), j) implies j == i by {
                    if i < j {
                        assert(occurs_at(s@, status_clause(), i as int));
                    }
                }
            }
            if i > s.len() || clause.len() > s.len() - i {
                return false;
            }
            status_retryable(&s, i + clause.len())
        },
        None => {
            let transport = chars_of("transport error");
            find_chars(&s, &transport).is_some()
        },
    }
}

proof fn lemma_first_status_clause_unique(s: Seq<char>, i: int, j: int)
    requires
        first_occurrence(s, status_clause(), i),
        first_occurrence(s, status_clause(), j),
    ensures
        i == j,
{
    if i < j {
        assert(occurs_at(s, status_clause(), i));
    }
    if j < i {
        assert(occurs_at(s, status_clause(), j));
    }
}

/// A 4xx is permanent, 429 aside: when the first `failed with HTTP ` clause
/// of a message names a status `4xy` other than `429`, the failure is never
/// retried, whatever the rest of the message says.
pub proof fn law_client_errors_are_permanent_but_rate_limits(s: Seq<char>, i: int)
    requires
        first_occurrence(s, "failed with HTTP "@, i),
        i + 20 <= s.len(),
        s[i + 17] == '4',
        !(s[i + 18] == '2' && s[i + 19] == '9'),
    ensures
        !retryable_message(s),
{
    reveal_strlit("failed with HTTP ");
    assert(contains_seq(s, status_clause()));
    if retryable_message(s) {
        let j = choose|j: int|
            #![trigger first_occurrence(s, status_clause(), j)]
            first_occurrence(s, status_clause(), j) && retryable_status_at(
                s,
                j + status_clause().len(),
            );
        lemma_first_status_clause_unique(s, i, j);
    }
}

/// Rate limiting and upstream failures are retried: when the first
/// `failed with HTTP ` clause names `429` or any `5xy`, the failure is
/// retryable.
pub proof fn law_rate_limits_and_server_errors_retry(s: Seq<char>, i: int)
    requires
        first_occurrence(s, "failed with HTTP "@, i),
        i + 20 <= s.len(),
        (s[i + 17] == '4' && s[i + 18] == '2' && s[i + 19] == '9') || (s[i + 17] == '5' && '0'
            <= s[i + 18] <= '9' && '0' <= s[i + 19] <= '9'),
    ensures
        retryable_message(s),
{
    reveal_strlit("failed with HTTP ");
    assert(contains_seq(s, status_clause()));
    assert(first_occurrence(s, status_clause(), i) && retryable_status_at(
        s,
        i + status_clause().len(),
    ));
}

} // verus!
