//! Results of text analysis and the local fallbacks that stand in for the
//! worker.

use vstd::prelude::*;
use crate::text::{blank, char_to_string, is_white_space};

verus! {

/// One token of a text: a word and the character positions it spans, the end
/// not included.
#[derive(Clone, Debug, PartialEq, Eq)]
pub struct Token {
    pub word: String,
    pub start: usize,
    pub end: usize,
}

/// The mathematical content of a `Token`.
pub struct TokenModel {
    pub word: Seq<char>,
    pub start: nat,
    pub end: nat,
}

impl View for Token {
    type V = TokenModel;

    open spec fn view(&self) -> TokenModel {
        TokenModel { word: self.word@, start: self.start as nat, end: self.end as nat }
    }
}

/// One segment of a text with its reading, if it has one.
#[derive(Clone, Debug, PartialEq, Eq)]
pub struct FuriganaSegment {
    pub text: String,
    pub start: usize,
    pub end: usize,
    pub has_reading: bool,
    pub reading: Option<String>,
}

/// The mathematical content of a `FuriganaSegment`.
pub struct SegmentModel {
    pub text: Seq<char>,
    pub start: nat,
    pub end: nat,
    pub has_reading: bool,
    pub reading: Option<Seq<char>>,
}

impl View for FuriganaSegment {
    type V = SegmentModel;

    open spec fn view(&self) -> SegmentModel {
        SegmentModel {
            text: self.text@,
            start: self.start as nat,
            end: self.end as nat,
            has_reading: self.has_reading,
            reading: match self.reading {
                Some(r) => Some(r@),
                None => None,
            },
        }
    }
}

/// The contents of a list of tokens.
pub open spec fn token_models(list: Seq<Token>) -> Seq<TokenModel> {
    Seq::new(list.len(), |i: int| list[i]@)
}

/// The contents of a list of segments.
pub open spec fn segment_models(list: Seq<FuriganaSegment>) -> Seq<SegmentModel> {
    Seq::new(list.len(), |i: int| list[i]@)
}

/// The token that stands for the single character at position `i`.
pub open spec fn char_token(s: Seq<char>, i: int) -> TokenModel {
    TokenModel { word: seq![s[i]], start: i as nat, end: (i + 1) as nat }
}

/// The fallback tokens of the first `n` characters of a text: one token for
/// each character that is not white space, at the character's position, in
/// the order of the text.
pub open spec fn fallback_token_models(s: Seq<char>, n: nat) -> Seq<TokenModel>
    decreases n,
{
    if n == 0 {
        Seq::empty()
    } else {
        let before = fallback_token_models(s, (n - 1) as nat);
        if is_white_space(s[n - 1]) {
            before
        } else {
            before.push(char_token(s, n - 1))
        }
    }
}

/// The fallback segment of a text: the whole text as one segment without a
/// reading.
pub open spec fn fallback_segment_model(s: Seq<char>) -> SegmentModel {
    SegmentModel { text: s, start: 0, end: s.len(), has_reading: false, reading: None }
}

/// Tokenises a text without the worker: one token for each character that is
/// not white space, positioned by character index.
pub fn fallback_tokens(text: &str) -> (r: Vec<Token>)
    ensures
        token_models(r@) == fallback_token_models(text@, text@.len()),
        r@.len() == fallback_token_models(text@, text@.len()).len(),
{
    let n: usize = text.unicode_len();
    let mut out: Vec<Token> = Vec::new();
    let mut i: usize = 0;
    for ch in it: text.chars()
        invariant
            n == text@.len(),
            it.seq() == text@,
            i == it.index(),
            token_models(out@) == fallback_token_models(text@, i as nat),
    {
        if !ch.is_whitespace() {
            out.push(Token { word: char_to_string(ch), start: i, end: i + 1 });
        }
        i = i + 1;
    }
    out
}

/// Annotates a text without the worker: the whole text as one segment that
/// has no reading.
pub fn fallback_furigana(text: &str) -> (r: Vec<FuriganaSegment>)
    ensures
        segment_models(r@) == seq![fallback_segment_model(text@)],
        r@.len() == 1,
        r@[0]@ == fallback_segment_model(text@),
{
    let mut out: Vec<FuriganaSegment> = Vec::new();
    out.push(
        FuriganaSegment {
            text: String::from_str(text),
            start: 0,
            end: text.unicode_len(),
            has_reading: false,
            reading: None,
        },
    );
    out
}

/// What the fallback tokens of a text are, said directly: every token is the
/// token of one character that is not white space, the tokens come in the
/// order of the text, and every character that is not white space has its
/// token.
pub proof fn lemma_fallback_tokens_characterised(s: Seq<char>, n: nat)
    requires
        n <= s.len(),
    ensures
        fallback_token_models(s, n).len() <= n,
        forall|k: int|
            0 <= k < fallback_token_models(s, n).len() ==> {
                let t = #[trigger] fallback_token_models(s, n)[k];
                &&& t.start < n
                &&& !is_white_space(s[t.start as int])
                &&& t == char_token(s, t.start as int)
            },
        forall|j: int, k: int|
            0 <= j < k < fallback_token_models(s, n).len() ==> fallback_token_models(s, n)[j].start
                < fallback_token_models(s, n)[k].start,
        forall|i: int|
            0 <= i < n && !is_white_space(s[i]) ==> fallback_token_models(s, n).contains(
                #[trigger] char_token(s, i),
            ),
    decreases n,
{
    if n > 0 {
        let before = fallback_token_models(s, (n - 1) as nat);
        let now = fallback_token_models(s, n);
        lemma_fallback_tokens_characterised(s, (n - 1) as nat);
        if is_white_space(s[n - 1]) {
            assert(now == before);
        } else {
            let last = char_token(s, n - 1);
            assert(now == before.push(last));
            assert(now[before.len() as int] == last);
            assert forall|i: int| 0 <= i < n && !is_white_space(s[i]) implies now.contains(
                #[trigger] char_token(s, i),
            ) by {
                if i < n - 1 {
                    let k = choose|k: int| 0 <= k < before.len() && before[k] == char_token(s, i);
                    assert(now[k] == char_token(s, i));
                }
            }
        }
    }
}

/// A text that holds nothing but white space has no fallback tokens.
pub proof fn lemma_blank_text_has_no_tokens(s: Seq<char>)
    ensures
        blank(s) ==> fallback_token_models(s, s.len()).len() == 0,
{
    lemma_fallback_tokens_characterised(s, s.len());
    let tokens = fallback_token_models(s, s.len());
    if blank(s) && tokens.len() > 0 {
        let first = tokens[0];
        assert(is_white_space(s[first.start as int]));
    }
}

} // verus!
