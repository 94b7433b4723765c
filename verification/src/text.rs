//! Text decoding helpers over the standard library.
//!
//! The runtime receives command lines and key strokes as raw bytes. The
//! decoding itself is done by the standard library; its results are named
//! or pinned here, and everything that inspects the decoded text is
//! verified against those statements.

use vstd::prelude::*;

verus! {

/// What `String::from_utf8_lossy` returns for the given bytes: a function
/// of the bytes alone.
pub uninterp spec fn lossy_utf8(bytes: Seq<u8>) -> Seq<char>;

/// Whether `c` has the Unicode `White_Space` property.
pub uninterp spec fn is_unicode_whitespace(c: char) -> bool;

/// Relies on `String::from_utf8_lossy`: the result depends on the bytes
/// alone, and valid UTF-8 input decodes exactly to its character sequence.
#[verifier::external_body]
pub(crate) fn utf8_lossy(data: &[u8]) -> (r: String)
    ensures
        r@ == lossy_utf8(data@),
        vstd::utf8::valid_utf8(data@) ==> r@ == vstd::utf8::decode_utf8(data@),
{
    String::from_utf8_lossy(data).to_string()
}

/// Relies on `str::from_utf8`: it succeeds exactly on valid UTF-8, and
/// then returns the slice decoded to its character sequence.
#[verifier::external_body]
pub(crate) fn utf8_to_str(data: &[u8]) -> (r: Option<&str>)
    ensures
        r is Some <==> vstd::utf8::valid_utf8(data@),
        r matches Some(s) ==> s@ == vstd::utf8::decode_utf8(data@),
{
    std::str::from_utf8(data).ok()
}

/// Relies on `char::is_whitespace`: the Unicode `White_Space` property is
/// a property of the character alone; the space, tab, line-feed and
/// carriage-return characters have it, and no character of the visible
/// ASCII range does.
#[verifier::external_body]
pub(crate) fn char_is_whitespace(c: char) -> (r: bool)
    ensures
        r == is_unicode_whitespace(c),
        (c == ' ' || c == '\t' || c == '\n' || c == '\r') ==> r,
        ('!' <= c && c <= '~') ==> !r,
{
    c.is_whitespace()
}

/// True when `w` is the first whitespace-separated word of `s`: the
/// characters between the leading whitespace run and the next whitespace,
/// and empty when `s` is empty or all whitespace.
pub open spec fn is_first_word(s: Seq<char>, w: Seq<char>) -> bool {
    exists|i: int, j: int|
        #![trigger s.subrange(i, j)]
        {
            &&& 0 <= i <= j <= s.len()
            &&& forall|k: int| 0 <= k < i ==> is_unicode_whitespace(#[trigger] s[k])
            &&& forall|k: int| i <= k < j ==> !is_unicode_whitespace(#[trigger] s[k])
            &&& (j == s.len() || is_unicode_whitespace(s[j]))
            &&& (i == j || i == s.len() || !is_unicode_whitespace(s[i]))
            &&& w == s.subrange(i, j)
        }
}

/// The first whitespace-separated word of `s`, or the empty text when
/// there is none.
pub fn first_word(s: &str) -> (r: &str)
    ensures
        is_first_word(s@, r@),
{
    let n = s.unicode_len();
    let mut i: usize = 0;
    loop
        invariant
            0 <= i <= n,
            n == s@.len(),
            forall|k: int| 0 <= k < i ==> is_unicode_whitespace(#[trigger] s@[k]),
        ensures
            0 <= i <= n,
            forall|k: int| 0 <= k < i ==> is_unicode_whitespace(#[trigger] s@[k]),
            i == n || !is_unicode_whitespace(s@[i as int]),
        decreases n - i,
    {
        if i >= n {
            break;
        }
        if !char_is_whitespace(s.get_char(i)) {
            break;
        }
        i += 1;
    }
    let mut j: usize = i;
    loop
        invariant
            0 <= i <= j <= n,
            n == s@.len(),
            forall|k: int| i <= k < j ==> !is_unicode_whitespace(#[trigger] s@[k]),
        ensures
            i <= j <= n,
            forall|k: int| i <= k < j ==> !is_unicode_whitespace(#[trigger] s@[k]),
            j == n || is_unicode_whitespace(s@[j as int]),
        decreases n - j,
    {
        if j >= n {
            break;
        }
        if char_is_whitespace(s.get_char(j)) {
            break;
        }
        j += 1;
    }
    let w = s.substring_char(i, j);
    proof {
        assert(0 <= i as int <= j as int <= s@.len());
        assert(w@ == s@.subrange(i as int, j as int));
    }
    w
}

} // verus!
