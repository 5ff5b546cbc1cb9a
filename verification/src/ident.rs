//! What the generator can know of a name before it writes one.
//!
//! The words that the generator writes of its own are made of ASCII letters, digits
//! and underscores. The name of a type may hold any letter of any script; of such a
//! name only its ASCII characters are looked at.

use vstd::prelude::*;
use vstd::std_specs::iter::IteratorSpec;
use vstd::string::*;

verus! {

/// `_` or an ASCII letter.
pub open spec fn is_ident_start(c: char) -> bool {
    c == '_' || ('a' <= c && c <= 'z') || ('A' <= c && c <= 'Z')
}

/// `_`, an ASCII letter or an ASCII digit.
pub open spec fn is_ident_continue(c: char) -> bool {
    is_ident_start(c) || ('0' <= c && c <= '9')
}

/// A non-empty run of ASCII letters, digits and underscores that does not start with
/// a digit.
pub open spec fn is_ascii_identifier(text: Seq<char>) -> bool {
    &&& text.len() > 0
    &&& is_ident_start(text[0])
    &&& forall|i: int| 0 < i < text.len() ==> is_ident_continue(#[trigger] text[i])
}

/// A run of ASCII letters, digits and underscores, as it may stand behind the start
/// of an identifier.
pub open spec fn is_identifier_tail(tail: Seq<char>) -> bool {
    forall|i: int| 0 <= i < tail.len() ==> is_ident_continue(#[trigger] tail[i])
}

/// No ASCII character of the text is anything but a letter, a digit or `_`. This
/// tells the text of an identifier from that of a raw identifier, such as `r#type`,
/// and of any other word that is written with a mark.
pub open spec fn is_plain_word(text: Seq<char>) -> bool {
    forall|i: int|
        0 <= i < text.len() && #[trigger] text[i] <= '\u{7f}' ==> is_ident_continue(text[i])
}

/// Tells whether a character is outside ASCII or else a letter, a digit or `_`.
fn is_plain_char(c: char) -> (yes: bool)
    ensures
        yes == (c <= '\u{7f}' ==> is_ident_continue(c)),
{
    c > '\u{7f}' || c == '_' || ('a' <= c && c <= 'z') || ('A' <= c && c <= 'Z') || ('0' <= c && c
        <= '9')
}

/// Tells whether no ASCII character of `text` is anything but a letter, a digit or `_`.
pub fn is_plain_word_text(text: &str) -> (yes: bool)
    ensures
        yes == is_plain_word(text@),
{
    for c in it: text.chars()
        invariant
            it.seq() == text@,
            forall|i: int|
                0 <= i < it.index@ && #[trigger] text@[i] <= '\u{7f}' ==> is_ident_continue(
                    text@[i],
                ),
    {
        if !is_plain_char(c) {
            return false;
        }
    }
    true
}

} // verus!
