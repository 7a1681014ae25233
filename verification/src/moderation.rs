use crate::text::{contains, lowercase, occurs_in, to_lowercase};
use vstd::prelude::*;

verus! {

/// Whether a word of the denylist stands in a text that is already in
/// lowercase.
pub open spec fn suspicious(lowered: Seq<char>) -> bool {
    ||| occurs_in(lowered, "http"@)
    ||| occurs_in(lowered, "цп"@)
    ||| occurs_in(lowered, "детское"@)
    ||| occurs_in(lowered, "продаю"@)
    ||| occurs_in(lowered, "продам"@)
}

/// Whether a word of the denylist stands in `lowered`, a text that is
/// already in lowercase.
pub fn is_suspicious_lowercase(lowered: &str) -> (r: bool)
    ensures
        r == suspicious(lowered@),
{
    contains(lowered, "http") || contains(lowered, "цп") || contains(lowered, "детское")
        || contains(lowered, "продаю") || contains(lowered, "продам")
}

/// Whether a word of the denylist stands in `text`, whatever the case of its
/// letters. Such a text is shown to the moderator; it is delivered all the
/// same.
pub fn is_suspicious(text: &str) -> (r: bool)
    ensures
        r == suspicious(lowercase(text@)),
{
    let lowered = to_lowercase(text);
    is_suspicious_lowercase(lowered.as_str())
}

} // verus!
