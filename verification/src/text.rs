//! Text of a line: decoding bytes and recognising lines that are blank.

use vstd::prelude::*;
use vstd::utf8::{valid_utf8, decode_utf8};

verus! {

/// Whether `c` has the Unicode property `White_Space`. This names the
/// result of `char::is_whitespace`.
pub uninterp spec fn is_white_space(c: char) -> bool;

/// Whether every character of `text` is white space. The empty text is blank.
pub open spec fn is_blank(text: Seq<char>) -> bool {
    forall|i: int| 0 <= i < text.len() ==> is_white_space(#[trigger] text[i])
}

/// Calls `char::is_whitespace`, whose result `is_white_space` names.
#[verifier::external_body]
pub(crate) fn char_is_whitespace(c: char) -> (white: bool)
    ensures
        white == is_white_space(c),
{
    c.is_whitespace()
}

/// Calls `String::from_utf8`: the bytes become a string if and only if they
/// are well-formed UTF-8, and the string then holds the characters that
/// they encode.
#[verifier::external_body]
pub(crate) fn string_from_utf8(bytes: Vec<u8>) -> (text: Option<String>)
    ensures
        text is Some <==> valid_utf8(bytes@),
        text matches Some(s) ==> s@ == decode_utf8(bytes@),
{
    String::from_utf8(bytes).ok()
}

/// A text stays blank when a white-space character is appended, and only then.
pub proof fn lemma_blank_push(text: Seq<char>, c: char)
    ensures
        is_blank(text.push(c)) == (is_blank(text) && is_white_space(c)),
{
    let longer = text.push(c);
    if is_blank(longer) {
        assert(longer[text.len() as int] == c);
        assert forall|i: int| 0 <= i < text.len() implies is_white_space(#[trigger] text[i]) by {
            assert(longer[i] == text[i]);
        }
    }
}

pub fn text_is_blank(text: &str) -> (blank: bool)
    ensures
        blank == is_blank(text@),
{
    broadcast use vstd::string::group_string_axioms;
    let mut blank = true;
    for c in it: text.chars()
        invariant
            it.seq() == text@,
            blank == is_blank(text@.take(it.index())),
    {
        let white = char_is_whitespace(c);
        proof {
            let i = it.index();
            assert(text@.take(i + 1) == text@.take(i).push(text@[i]));
            lemma_blank_push(text@.take(i), text@[i]);
        }
        blank = blank && white;
    }
    assert(text@.take(text@.len() as int) == text@);
    blank
}

} // verus!
