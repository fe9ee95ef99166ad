//! Facts about text fields: blankness and UTF-8 length.
use vstd::prelude::*;
use vstd::utf8::encode_utf8;

verus! {

/// The characters with the Unicode `White_Space` property.
pub open spec fn is_white_space(c: char) -> bool {
    let u = c as u32;
    ||| 0x09 <= u <= 0x0d
    ||| u == 0x20
    ||| u == 0x85
    ||| u == 0xa0
    ||| u == 0x1680
    ||| 0x2000 <= u <= 0x200a
    ||| u == 0x2028
    ||| u == 0x2029
    ||| u == 0x202f
    ||| u == 0x205f
    ||| u == 0x3000
}

/// A text is blank when it is empty or holds only white space, that is,
/// when nothing is left of it once white space is trimmed from both ends.
pub open spec fn is_blank_text(s: Seq<char>) -> bool {
    forall|i: int| 0 <= i < s.len() ==> is_white_space(#[trigger] s[i])
}

/// The length of a text in bytes, encoded as UTF-8.
pub open spec fn utf8_len(s: Seq<char>) -> nat {
    encode_utf8(s).len()
}

/// A text is blank exactly when every one of its characters is white space,
/// and its length in bytes is the length of its UTF-8 encoding.
pub proof fn law_text_measures(s: Seq<char>)
    ensures
        is_blank_text(s) <==> (forall|i: int| 0 <= i < s.len() ==> is_white_space(#[trigger] s[i])),
        utf8_len(s) == encode_utf8(s).len(),
        is_blank_text(Seq::<char>::empty()),
{
}

/// `char::is_whitespace`: std documents it as true exactly for the
/// characters with the Unicode `White_Space` property, which
/// `is_white_space` lists.
#[verifier::external_body]
fn char_is_whitespace(c: char) -> (r: bool)
    ensures
        r == is_white_space(c),
{
    c.is_whitespace()
}

/// Whether `s` is empty once white space is trimmed from both ends.
pub fn is_blank(s: &str) -> (r: bool)
    ensures
        r == is_blank_text(s@),
        r == (forall|i: int| 0 <= i < s@.len() ==> is_white_space(#[trigger] s@[i])),
{
    for c in it: s.chars()
        invariant
            it.seq() == s@,
            forall|j: int| 0 <= j < it.index() ==> is_white_space(#[trigger] s@[j]),
    {
        if !char_is_whitespace(c) {
            return false;
        }
    }
    true
}

/// The length of `s` in bytes, encoded as UTF-8.
pub fn byte_len(s: &str) -> (n: usize)
    ensures
        n == utf8_len(s@),
        n == encode_utf8(s@).len(),
{
    s.as_bytes().len()
}

} // verus!

verus! {

/// Whether two texts hold the same characters.
pub fn same_text(a: &str, b: &str) -> (r: bool)
    ensures
        r == (a@ == b@),
{
    String::from_str(a) == String::from_str(b)
}

} // verus!
