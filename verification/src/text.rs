use vstd::prelude::*;

verus! {

/// The lowercase form of a text, as the standard library computes it.
pub uninterp spec fn lowercase(s: Seq<char>) -> Seq<char>;

/// Calls `str::to_lowercase`. Assumed, not proved: the result is the
/// lowercase form of the argument, the same for the same text. Nothing is
/// claimed about what that form is for any particular text.
#[verifier::external_body]
pub(crate) fn to_lowercase(s: &str) -> (r: String)
    ensures
        r@ == lowercase(s@),
{
    s.to_lowercase()
}

/// Whether two texts hold the same characters.
pub fn str_eq(a: &str, b: &str) -> (r: bool)
    ensures
        r == (a@ == b@),
{
    let left = a.to_owned();
    let right = b.to_owned();
    left == right
}

/// Whether `needle` stands in `haystack` from position `i` on.
pub open spec fn occurs_at(haystack: Seq<char>, needle: Seq<char>, i: int) -> bool {
    &&& 0 <= i
    &&& i + needle.len() <= haystack.len()
    &&& haystack.subrange(i, i + needle.len()) == needle
}

/// Whether `needle` stands somewhere in `haystack`.
pub open spec fn occurs_in(haystack: Seq<char>, needle: Seq<char>) -> bool {
    exists|i: int| occurs_at(haystack, needle, i)
}

/// Calls `str::contains` with a `str` pattern. Assumed, not proved: the
/// result is true exactly when the pattern stands somewhere in the text,
/// character for character.
#[verifier::external_body]
pub(crate) fn contains(haystack: &str, needle: &str) -> (r: bool)
    ensures
        r == occurs_in(haystack@, needle@),
{
    haystack.contains(needle)
}

/// The number between 0 and 255 that a text is read as, if the standard
/// library reads it as one.
pub uninterp spec fn parsed_u8(s: Seq<char>) -> Option<u8>;

/// Calls `str::parse::<u8>`. Assumed, not proved: the result is the number
/// the text is read as, or `None` where it is not read as one, the same for
/// the same text. Nothing is claimed about which texts are read as which
/// numbers.
#[verifier::external_body]
pub(crate) fn parse_u8(s: &str) -> (r: Option<u8>)
    ensures
        r == parsed_u8(s@),
{
    s.parse::<u8>().ok()
}

/// The number a text is read as, if the standard library reads it as a
/// 64-bit signed integer.
pub uninterp spec fn parsed_i64(s: Seq<char>) -> Option<i64>;

/// Calls `str::parse::<i64>`. Assumed, not proved: the result is the number
/// the text is read as, or `None` where it is not read as one, the same for
/// the same text. Nothing is claimed about which texts are read as which
/// numbers.
#[verifier::external_body]
pub(crate) fn parse_i64(s: &str) -> (r: Option<i64>)
    ensures
        r == parsed_i64(s@),
{
    s.parse::<i64>().ok()
}

/// Whether the piece of `s` that starts at `from` and runs up to the next
/// `_`, or to the end of `s` where there is none, ends before `end`.
pub open spec fn is_field_end(s: Seq<char>, from: int, end: int) -> bool {
    &&& 0 <= from <= end <= s.len()
    &&& end == s.len() || s[end] == '_'
    &&& forall|k: int| from <= k < end ==> s[k] != '_'
}

/// Where the piece of `s` that starts at `from` ends.
pub open spec fn field_end(s: Seq<char>, from: int) -> int {
    choose|end: int| is_field_end(s, from, end)
}

/// A piece ends in one place only.
pub proof fn lemma_field_end(s: Seq<char>, from: int, end: int)
    requires
        is_field_end(s, from, end),
    ensures
        field_end(s, from) == end,
{
    let other = field_end(s, from);
    assert(is_field_end(s, from, other));
    if other < end {
        assert(s[other] != '_');
    } else if end < other {
        assert(s[end] != '_');
    }
}

/// The second of the pieces into which the character `_` cuts `s`, if `_`
/// stands in `s` at all.
pub open spec fn second_field(s: Seq<char>) -> Option<Seq<char>> {
    let first = field_end(s, 0);
    if first == s.len() {
        None
    } else {
        Some(s.subrange(first + 1, field_end(s, first + 1)))
    }
}

/// Where the piece of `s` that starts at `from` ends.
pub fn find_field_end(s: &str, from: usize) -> (end: usize)
    requires
        from <= s@.len(),
    ensures
        is_field_end(s@, from as int, end as int),
        end as int == field_end(s@, from as int),
{
    let n = s.unicode_len();
    let mut i: usize = from;
    while i < n
        invariant
            from <= i <= n,
            n == s@.len(),
            forall|k: int| from <= k < i ==> s@[k] != '_',
        decreases n - i,
    {
        if s.get_char(i) == '_' {
            proof {
                lemma_field_end(s@, from as int, i as int);
            }
            return i;
        }
        i += 1;
    }
    proof {
        lemma_field_end(s@, from as int, i as int);
    }
    i
}

/// The second of the pieces into which the character `_` cuts `s`.
pub fn find_second_field(s: &str) -> (r: Option<&str>)
    ensures
        match r {
            Some(f) => second_field(s@) == Some(f@),
            None => second_field(s@) is None,
        },
{
    let n = s.unicode_len();
    let first = find_field_end(s, 0);
    if first == n {
        None
    } else {
        let end = find_field_end(s, first + 1);
        Some(s.substring_char(first + 1, end))
    }
}

} // verus!
