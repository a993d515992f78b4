//! Text helpers shared by the field conversions: equality of two texts and
//! lower-casing.
use vstd::prelude::*;
use vstd::string::StringSliceAdditionalSpecFns;
use vstd::utf8::encode_utf8_decode_utf8;
use vstd::utf8::is_ascii_chars;

verus! {

/// The lower-case form of a text as `str::to_lowercase` computes it, which
/// follows the Unicode case mappings.
pub uninterp spec fn unicode_lowercase(text: Seq<char>) -> Seq<char>;

/// The ASCII lower-case form of a character: the letters `A` to `Z` become
/// `a` to `z`, every other character stays as it is.
pub open spec fn ascii_lowercase_char(c: char) -> char {
    if 'A' <= c && c <= 'Z' {
        ((c as u32) + 32) as char
    } else {
        c
    }
}

/// The text with every character replaced by its ASCII lower-case form.
pub open spec fn ascii_lowercase(text: Seq<char>) -> Seq<char> {
    Seq::new(text.len(), |i: int| ascii_lowercase_char(text[i]))
}

/// The lower-case form of a text. For an ASCII text it is spelled out
/// letter by letter; for any other text it is what the Unicode case
/// mappings give.
pub open spec fn lowercased(text: Seq<char>) -> Seq<char> {
    if is_ascii_chars(text) {
        ascii_lowercase(text)
    } else {
        unicode_lowercase(text)
    }
}

/// `str::to_lowercase` is not verified here. Its result depends on the text
/// alone; nothing more is claimed of it.
pub assume_specification[ str::to_lowercase ](text: &str) -> (res: String)
    ensures
        res@ == unicode_lowercase(text@),
;

/// `str::to_ascii_lowercase` is not verified here. It maps the letters `A`
/// to `Z` to `a` to `z` and leaves every other character, ASCII or not, as
/// it is.
pub assume_specification[ str::to_ascii_lowercase ](text: &str) -> (res: String)
    ensures
        res@ == ascii_lowercase(text@),
;

/// Lower-cases a text: an ASCII text letter by letter, any other text by
/// the Unicode case mappings, which agree with the first on ASCII letters.
pub fn lowercase(text: &str) -> (res: String)
    ensures
        res@ == lowercased(text@),
{
    if text.is_ascii() {
        text.to_ascii_lowercase()
    } else {
        text.to_lowercase()
    }
}

/// Tells whether two texts hold the same characters.
pub fn text_eq(a: &str, b: &str) -> (res: bool)
    ensures
        res == (a@ == b@),
{
    let x = a.as_bytes();
    let y = b.as_bytes();
    proof {
        encode_utf8_decode_utf8(a@);
        encode_utf8_decode_utf8(b@);
    }
    if x.len() != y.len() {
        return false;
    }
    let mut i: usize = 0;
    while i < x.len()
        invariant
            x@.len() == y@.len(),
            i <= x@.len(),
            x@ == a.spec_bytes(),
            y@ == b.spec_bytes(),
            forall|j: int| 0 <= j < i ==> x@[j] == y@[j],
        decreases x@.len() - i,
    {
        if x[i] != y[i] {
            return false;
        }
        i += 1;
    }
    assert(x@ =~= y@);
    true
}

} // verus!
