//! The two operations on text that the parsers take from the standard library.

use vstd::prelude::*;

verus! {

/// The lowercase equivalent of a text, as the standard library's `str::to_lowercase`
/// computes it from the Unicode case tables.
pub uninterp spec fn lowercase(s: Seq<char>) -> Seq<char>;

/// Calls `str::to_lowercase`.
///
/// Not proved: that the returned text is `lowercase` of the argument, which is to say
/// that the standard library's result depends on the characters of the argument alone.
#[verifier::external_body]
pub(crate) fn to_lowercase(s: &str) -> (lowered: String)
    ensures
        lowered@ == lowercase(s@),
{
    s.to_lowercase()
}

/// True when `i` is the position of the first `delimiter` in `s`.
pub open spec fn is_first_at(s: Seq<char>, delimiter: char, i: int) -> bool {
    &&& 0 <= i < s.len()
    &&& s[i] == delimiter
    &&& forall|j: int| 0 <= j < i ==> s[j] != delimiter
}

/// The position of the first `delimiter` in `s`, for an `s` that contains one.
pub open spec fn first_index_of(s: Seq<char>, delimiter: char) -> int {
    choose|i: int| is_first_at(s, delimiter, i)
}

/// The text before the first `delimiter` in `s`, for an `s` that contains one.
pub open spec fn before_first(s: Seq<char>, delimiter: char) -> Seq<char> {
    s.subrange(0, first_index_of(s, delimiter))
}

/// The text after the first `delimiter` in `s`, for an `s` that contains one.
pub open spec fn after_first(s: Seq<char>, delimiter: char) -> Seq<char> {
    s.subrange(first_index_of(s, delimiter) + 1, s.len() as int)
}

/// Calls `str::split_once` with a character as the delimiter.
///
/// Not proved: that the result is `None` exactly when the delimiter does not occur, and
/// that otherwise the two parts are the text before its first occurrence and the text
/// after it.
#[verifier::external_body]
pub(crate) fn split_once<'a>(s: &'a str, delimiter: char) -> (parts: Option<(&'a str, &'a str)>)
    ensures
        match parts {
            Some((head, tail)) => {
                &&& s@ == head@ + seq![delimiter] + tail@
                &&& !head@.contains(delimiter)
            },
            None => !s@.contains(delimiter),
        },
{
    s.split_once(delimiter)
}

/// A text cut at a delimiter that does not occur before the cut is cut at the first
/// occurrence of the delimiter.
pub proof fn lemma_split_is_first(s: Seq<char>, delimiter: char, head: Seq<char>, tail: Seq<char>)
    requires
        s == head + seq![delimiter] + tail,
        !head.contains(delimiter),
    ensures
        s.contains(delimiter),
        is_first_at(s, delimiter, head.len() as int),
        first_index_of(s, delimiter) == head.len(),
        before_first(s, delimiter) == head,
        after_first(s, delimiter) == tail,
{
    let n = head.len() as int;
    assert(s[n] == delimiter);
    assert forall|j: int| 0 <= j < n implies s[j] != delimiter by {
        assert(s[j] == head[j]);
    }
    assert(is_first_at(s, delimiter, n));
    let k = first_index_of(s, delimiter);
    assert(is_first_at(s, delimiter, k));
    assert(k == n);
    assert(s.subrange(0, n) =~= head);
    assert(s.subrange(n + 1, s.len() as int) =~= tail);
}

} // verus!
