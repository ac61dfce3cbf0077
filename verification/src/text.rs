//! White space in text: what counts as it, and trimming.

use vstd::prelude::*;

verus! {

/// Whether a character has the Unicode property White_Space.
pub uninterp spec fn is_white_space(c: char) -> bool;

/// `char::is_whitespace` of the standard library: it tells whether the
/// character has the Unicode property White_Space. Which characters have the
/// property is left to the standard library.
pub assume_specification[ char::is_whitespace ](c: char) -> (r: bool)
    ensures
        r == is_white_space(c),
;

/// The text without the white space at its start.
pub open spec fn without_leading_space(s: Seq<char>) -> Seq<char>
    decreases s.len(),
{
    if s.len() > 0 && is_white_space(s[0]) {
        without_leading_space(s.drop_first())
    } else {
        s
    }
}

/// The text without the white space at its end.
pub open spec fn without_trailing_space(s: Seq<char>) -> Seq<char>
    decreases s.len(),
{
    if s.len() > 0 && is_white_space(s.last()) {
        without_trailing_space(s.drop_last())
    } else {
        s
    }
}

/// The text without the white space at its start and at its end.
pub open spec fn trimmed(s: Seq<char>) -> Seq<char> {
    without_trailing_space(without_leading_space(s))
}

/// Whether the text holds nothing but white space.
pub open spec fn blank(s: Seq<char>) -> bool {
    forall|i: int| 0 <= i < s.len() ==> is_white_space(#[trigger] s[i])
}

/// `str::trim` of the standard library: it returns the slice that is left
/// when leading and trailing white space, in the sense of the Unicode
/// property White_Space, is removed.
#[verifier::external_body]
pub(crate) fn trim(s: &str) -> (r: &str)
    ensures
        r@ == trimmed(s@),
{
    s.trim()
}

/// `char::to_string` of the standard library: the text that consists of the
/// one character.
#[verifier::external_body]
pub(crate) fn char_to_string(c: char) -> (r: String)
    ensures
        r@ == seq![c],
{
    c.to_string()
}

/// Removing leading white space leaves nothing exactly if the text is blank.
proof fn lemma_leading_space_of_blank(s: Seq<char>)
    ensures
        blank(s) ==> without_leading_space(s).len() == 0,
        !blank(s) ==> without_leading_space(s).len() > 0 && !is_white_space(without_leading_space(s)[0]),
    decreases s.len(),
{
    if s.len() > 0 && is_white_space(s[0]) {
        let rest = s.drop_first();
        lemma_leading_space_of_blank(rest);
        if blank(s) {
            assert forall|i: int| 0 <= i < rest.len() implies is_white_space(#[trigger] rest[i]) by {
                assert(rest[i] == s[i + 1]);
            }
        } else {
            let k = choose|k: int| 0 <= k < s.len() && !is_white_space(#[trigger] s[k]);
            assert(k > 0);
            assert(rest[k - 1] == s[k]);
            assert(!blank(rest));
        }
    } else if s.len() > 0 {
        assert(!blank(s));
    }
}

/// Removing trailing white space from a text that does not start with white
/// space leaves a text that is not empty.
proof fn lemma_trailing_space_keeps_head(s: Seq<char>)
    requires
        s.len() > 0,
        !is_white_space(s[0]),
    ensures
        without_trailing_space(s).len() > 0,
    decreases s.len(),
{
    if is_white_space(s.last()) {
        assert(s.len() > 1);
        let rest = s.drop_last();
        assert(rest[0] == s[0]);
        lemma_trailing_space_keeps_head(rest);
    }
}

/// Trimming leaves nothing exactly if the text is blank.
pub proof fn lemma_trimmed_empty_iff_blank(s: Seq<char>)
    ensures
        trimmed(s).len() == 0 <==> blank(s),
{
    lemma_leading_space_of_blank(s);
    if !blank(s) {
        lemma_trailing_space_keeps_head(without_leading_space(s));
    }
}

/// Tells whether the text is empty once trimmed, that is whether it holds
/// nothing but white space.
pub fn is_blank(s: &str) -> (r: bool)
    ensures
        r == blank(s@),
{
    proof {
        lemma_trimmed_empty_iff_blank(s@);
    }
    trim(s).is_empty()
}

} // verus!
