//! How a failed URL read is reported.

use vstd::prelude::*;
use crate::service::MemoryError;
use crate::text::{chars_of, contains_seq, find_chars, push_str};

verus! {

/// The reader's words for a body that outgrew its byte budget
/// (`"… exceeds N-byte limit …"`).
pub open spec fn size_limit_marker() -> Seq<char> {
    "-byte limit"@
}

/// Classify a failed read of `url`: a body over its byte budget is
/// `BudgetExceeded` (the caller asked for too much), anything else —
/// a reset, a timeout, a refused connection — is `Unreachable`.
pub fn read_error(url: &str, message: &str) -> (r: MemoryError)
    ensures
        contains_seq(message@, size_limit_marker()) ==> (r matches MemoryError::BudgetExceeded(m)
            && m@ == url@ + ": "@ + message@),
        !contains_seq(message@, size_limit_marker()) ==> (r matches MemoryError::Unreachable(m)
            && m@ == url@ + ": "@ + message@),
{
    let mut detail = url.to_owned();
    push_str(&mut detail, ": ");
    push_str(&mut detail, message);
    let marker = chars_of("-byte limit");
    if find_chars(&chars_of(message), &marker).is_some() {
        MemoryError::BudgetExceeded(detail)
    } else {
        MemoryError::Unreachable(detail)
    }
}

} // verus!
