//! Text helpers shared by the path matcher and the fixture resolver.

use vstd::prelude::*;
use vstd::std_specs::iter::IteratorSpec;
use vstd::utf8::is_ascii_chars;

verus! {

/// The lowercase form of one character of the ASCII range; any other character is left alone.
pub open spec fn ascii_lower(c: char) -> char {
    if 'A' <= c && c <= 'Z' {
        ((c as u8 + 32) as u8) as char
    } else {
        c
    }
}

/// `text` with each character replaced by its ASCII lowercase form.
pub open spec fn ascii_lowercase(text: Seq<char>) -> Seq<char> {
    Seq::new(text.len(), |i: int| ascii_lower(text[i]))
}

/// Whether `left` and `right` differ at most in the case of ASCII letters.
pub open spec fn same_ignoring_ascii_case(left: Seq<char>, right: Seq<char>) -> bool {
    ascii_lowercase(left) == ascii_lowercase(right)
}

/// Lowering the ASCII letters of a text neither brings a character into the
/// ASCII range nor takes one out of it.
pub proof fn lemma_ascii_lowercase_keeps_range(text: Seq<char>)
    ensures
        is_ascii_chars(ascii_lowercase(text)) == is_ascii_chars(text),
{
    let lowered = ascii_lowercase(text);
    if is_ascii_chars(lowered) {
        assert forall|i: int| 0 <= i < text.len() implies '\0' <= #[trigger] text[i]
            <= '\u{7f}' by {
            assert('\0' <= lowered[i] <= '\u{7f}');
        }
    }
    if is_ascii_chars(text) {
        assert forall|i: int| 0 <= i < lowered.len() implies '\0' <= #[trigger] lowered[i]
            <= '\u{7f}' by {
            assert('\0' <= text[i] <= '\u{7f}');
        }
    }
}

/// The Unicode lowercase form of `text`, as the standard library computes it.
pub uninterp spec fn lowercase_of(text: Seq<char>) -> Seq<char>;

/// Calls `str::to_lowercase`, which is believed and not proved here. Its result
/// is named [`lowercase_of`]. One fact is stated of it: on text made of ASCII
/// characters alone it does what `str::to_ascii_lowercase` does, mapping `A`..`Z`
/// to `a`..`z` and leaving every other character as it is. The standard library
/// documents `to_lowercase` as the conversion that lowers the ASCII letters and
/// the others besides. What it makes of other text is stated nowhere.
#[verifier::external_body]
pub(crate) fn lowercase(text: &str) -> (lowered: String)
    ensures
        lowered@ == lowercase_of(text@),
        is_ascii_chars(text@) ==> lowered@ == ascii_lowercase(text@),
{
    text.to_lowercase()
}

/// Whether `text` begins with `prefix`.
pub(crate) fn starts_with(text: &str, prefix: &str) -> (b: bool)
    ensures
        b == (text@.len() >= prefix@.len() && text@.subrange(0, prefix@.len() as int)
            == prefix@),
{
    let mut rest = text.chars();
    let wanted = prefix.chars();
    for c in it: wanted
        invariant
            it.seq() == prefix@,
            rest.remaining() == text@.skip(it.index()),
            it.index() <= text@.len(),
            text@.subrange(0, it.index()) == prefix@.subrange(0, it.index()),
    {
        match rest.next() {
            Some(d) => {
                if c != d {
                    return false;
                }
            },
            None => {
                return false;
            },
        }
    }
    assert(prefix@.subrange(0, prefix@.len() as int) =~= prefix@);
    true
}

/// Whether `left` and `right` hold the same characters.
pub(crate) fn same_text(left: &str, right: &str) -> (b: bool)
    ensures
        b == (left@ == right@),
{
    let same = starts_with(left, right) && starts_with(right, left);
    assert(same ==> left@ =~= left@.subrange(0, right@.len() as int));
    assert(left@ == right@ ==> left@.subrange(0, right@.len() as int) =~= right@);
    same
}

/// Whether the character `wanted` occurs in `text`.
pub(crate) fn has_char(text: &str, wanted: char) -> (b: bool)
    ensures
        b == text@.contains(wanted),
{
    let chars = text.chars();
    for c in it: chars
        invariant
            it.seq() == text@,
            forall|j: int| 0 <= j < it.index() ==> text@[j] != wanted,
    {
        if c == wanted {
            return true;
        }
    }
    false
}

} // verus!
