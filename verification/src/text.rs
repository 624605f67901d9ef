//! Text primitives that the rest of the library is stated over.
//!
//! The standard library compares, folds and searches string slices; the
//! functions here give those operations a meaning on `Seq<char>`.

use vstd::prelude::*;
use vstd::utf8::{encode_utf8, encode_utf8_decode_utf8};

verus! {

/// `needle` occurs in `hay` as a contiguous run of characters.
pub open spec fn is_substring(needle: Seq<char>, hay: Seq<char>) -> bool {
    exists|i: int|
        0 <= i && i + needle.len() <= hay.len() && #[trigger] hay.subrange(
            i,
            i + needle.len(),
        ) == needle
}

/// The lowercase form that the standard library gives to a piece of text.
pub uninterp spec fn lowercase_of(s: Seq<char>) -> Seq<char>;

/// Whether two texts hold the same characters in the same order. Compared
/// byte by byte: two texts are the same exactly when their UTF-8 forms are.
pub fn str_eq(a: &str, b: &str) -> (same: bool)
    ensures
        same == (a@ == b@),
{
    let left = a.as_bytes();
    let right = b.as_bytes();
    proof {
        encode_utf8_decode_utf8(a@);
        encode_utf8_decode_utf8(b@);
    }
    if left.len() != right.len() {
        return false;
    }
    let mut i: usize = 0;
    while i < left.len()
        invariant
            i <= left.len(),
            left.len() == right.len(),
            left@ == encode_utf8(a@),
            right@ == encode_utf8(b@),
            forall|j: int| 0 <= j < i ==> left@[j] == right@[j],
        decreases left.len() - i,
    {
        if left[i] != right[i] {
            return false;
        }
        i += 1;
    }
    assert(left@ =~= right@);
    true
}

/// Trusted: `str::to_lowercase`. The result depends on the characters of the
/// input alone; nothing more is claimed of it than that it has a name.
#[verifier::external_body]
pub(crate) fn to_lowercase(s: &str) -> (lower: String)
    ensures
        lower@ == lowercase_of(s@),
{
    s.to_lowercase()
}

/// Trusted: `str::contains` with a string pattern, which is true exactly when
/// the pattern matches a sub-slice of the text.
#[verifier::external_body]
pub(crate) fn contains_str(hay: &str, needle: &str) -> (found: bool)
    ensures
        found == is_substring(needle@, hay@),
{
    hay.contains(needle)
}

/// What is left of a piece of text once the standard library has taken the
/// white space off both its ends.
pub uninterp spec fn trimmed_of(s: Seq<char>) -> Seq<char>;

/// The number that the standard library reads a piece of text as, where it
/// reads it as a 32-bit signed integer in decimal notation.
pub uninterp spec fn parsed_i32_of(s: Seq<char>) -> Option<i32>;

/// Trusted: `str::trim`. The result depends on the characters of the input
/// alone; nothing more is claimed of it than that it has a name.
#[verifier::external_body]
pub(crate) fn trim(s: &str) -> (trimmed: &str)
    ensures
        trimmed@ == trimmed_of(s@),
{
    s.trim()
}

/// Trusted: `str::parse::<i32>`, with its error dropped. The result depends
/// on the characters of the input alone; nothing more is claimed of it than
/// that it has a name.
#[verifier::external_body]
pub(crate) fn parse_i32(s: &str) -> (number: Option<i32>)
    ensures
        number == parsed_i32_of(s@),
{
    s.parse::<i32>().ok()
}

/// `suffix` is what `text` ends with.
pub open spec fn is_suffix(suffix: Seq<char>, text: Seq<char>) -> bool {
    suffix.len() <= text.len() && text.subrange(text.len() - suffix.len(), text.len() as int)
        == suffix
}

/// `prefix` is what `text` begins with.
pub open spec fn is_prefix(prefix: Seq<char>, text: Seq<char>) -> bool {
    prefix.len() <= text.len() && text.subrange(0, prefix.len() as int) == prefix
}

/// Whether `text` ends with `suffix`.
pub fn ends_with(text: &str, suffix: &str) -> (ends: bool)
    ensures
        ends == is_suffix(suffix@, text@),
{
    let length = text.unicode_len();
    let tail = suffix.unicode_len();
    tail <= length && str_eq(text.substring_char(length - tail, length), suffix)
}

/// Whether `text` begins with `prefix`.
pub fn starts_with(text: &str, prefix: &str) -> (starts: bool)
    ensures
        starts == is_prefix(prefix@, text@),
{
    let length = text.unicode_len();
    let head = prefix.unicode_len();
    head <= length && str_eq(text.substring_char(0, head), prefix)
}

/// The position of the first `c` in `s`, or the length of `s` where it has
/// none.
pub open spec fn first_index_of(s: Seq<char>, c: char) -> int
    decreases s.len(),
{
    if s.len() == 0 {
        0
    } else if s[0] == c {
        0
    } else {
        1 + first_index_of(s.skip(1), c)
    }
}

/// `s` up to its first `c`; all of `s` where it has none.
pub open spec fn before_first(s: Seq<char>, c: char) -> Seq<char> {
    s.take(first_index_of(s, c))
}

/// What follows the first `c` of `s`, where it has one.
pub open spec fn after_first(s: Seq<char>, c: char) -> Option<Seq<char>> {
    if first_index_of(s, c) < s.len() {
        Some(s.skip(first_index_of(s, c) + 1))
    } else {
        None
    }
}

/// The position of the first `c` lies within `s` or at its end.
pub proof fn lemma_first_index_in_bounds(s: Seq<char>, c: char)
    ensures
        0 <= first_index_of(s, c) <= s.len(),
    decreases s.len(),
{
    if s.len() > 0 && s[0] != c {
        lemma_first_index_in_bounds(s.skip(1), c);
    }
}

/// The first `c` of `s` is where no earlier character is `c`.
pub proof fn lemma_first_index_of(s: Seq<char>, c: char, i: int)
    requires
        0 <= i <= s.len(),
        forall|j: int| 0 <= j < i ==> s[j] != c,
        i < s.len() ==> s[i] == c,
    ensures
        first_index_of(s, c) == i,
    decreases i,
{
    if i > 0 {
        let rest = s.skip(1);
        lemma_first_index_of(rest, c, i - 1);
    }
}

/// Cuts `s` at its first `c`: what comes before it, and what comes after it
/// where `s` has a `c`.
pub fn cut_at<'a>(s: &'a str, c: char) -> (parts: (&'a str, Option<&'a str>))
    ensures
        parts.0@ == before_first(s@, c),
        parts.1 is Some == after_first(s@, c) is Some,
        parts.1 is Some ==> parts.1->Some_0@ == after_first(s@, c)->Some_0,
        parts.1 is Some ==> parts.1->Some_0@.len() < s@.len(),
{
    let length = s.unicode_len();
    let mut i: usize = 0;
    while i < length && s.get_char(i) != c
        invariant
            i <= length,
            length == s@.len(),
            forall|j: int| 0 <= j < i ==> s@[j] != c,
        decreases length - i,
    {
        i += 1;
    }
    proof {
        lemma_first_index_of(s@, c, i as int);
    }
    let head = s.substring_char(0, i);
    if i < length {
        (head, Some(s.substring_char(i + 1, length)))
    } else {
        (head, None)
    }
}

/// Case-insensitive containment: the lowercase form of `query` occurs in the
/// lowercase form of `text`.
pub open spec fn contains_ignoring_case(text: Seq<char>, query: Seq<char>) -> bool {
    is_substring(lowercase_of(query), lowercase_of(text))
}

/// Joins the pieces of a path or a name in order.
pub fn join3(a: &str, b: &str, c: &str) -> (joined: String)
    ensures
        joined@ == a@ + b@ + c@,
{
    let mut out = String::new();
    out.append(a);
    out.append(b);
    out.append(c);
    out
}

} // verus!
