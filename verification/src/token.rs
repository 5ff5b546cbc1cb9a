//! Token streams: the model that the contracts speak of, and the calls that fill a stream.

use crate::ident::{is_ascii_identifier, is_identifier_tail, is_plain_word};
use proc_macro2::{Group, Ident, Literal, Punct, Span, TokenStream, TokenTree};
use quote::TokenStreamExt;
use vstd::prelude::*;

verus! {

/// `proc_macro2::Span`, carried through and never looked into.
#[verifier::external_type_specification]
#[verifier::external_body]
pub struct ExSpan(Span);

/// `Span::clone`: a span is `Copy`, and its clone is the span itself.
pub assume_specification[ <Span as Clone>::clone ](span: &Span) -> (copy: Span)
    ensures
        copy == *span,
;

/// `proc_macro2::Ident`: a word as it was written somewhere. `ident_text` and
/// `ident_span` name what it holds.
#[verifier::external_type_specification]
#[verifier::external_body]
pub struct ExIdent(Ident);

/// `Ident::clone`: the clone is the same word at the same place.
pub assume_specification[ <Ident as Clone>::clone ](ident: &Ident) -> (copy: Ident)
    ensures
        copy == *ident,
;

/// `proc_macro2::TokenTree`; `tree_token` names what it holds.
#[verifier::external_type_specification]
#[verifier::external_body]
pub struct ExTokenTree(TokenTree);

/// `proc_macro2::TokenStream`; `stream_tokens` names what it holds.
#[verifier::external_type_specification]
#[verifier::external_body]
pub struct ExTokenStream(TokenStream);

/// How a group of tokens is enclosed.
#[derive(Clone, Copy, Debug, PartialEq, Eq, Structural)]
pub enum Delimiter {
    /// `( .. )`
    Parenthesis,
    /// `{ .. }`
    Brace,
    /// `[ .. ]`
    Bracket,
    /// Enclosed, with nothing written around it.
    Invisible,
}

/// Whether a punctuation character is glued to the punctuation that follows it.
#[derive(Clone, Copy, Debug, PartialEq, Eq, Structural)]
pub enum Spacing {
    Alone,
    Joint,
}

/// One token tree of a stream, as the contracts see it.
pub enum Token {
    /// A word, be it a name or a keyword: its text and its span.
    Word(Seq<char>, Span),
    /// One punctuation character.
    Punct(char, Spacing, Span),
    /// An integer literal without a sign or a suffix, written in decimal: its value
    /// and its span.
    Number(nat, Span),
    /// Any other literal: its text and its span. The generator writes none.
    Literal(Seq<char>, Span),
    /// A delimited group: the tokens inside it, and the span of its delimiters.
    Group(Delimiter, Seq<Token>, Span),
}

impl Token {
    /// The same token with another span. In a group, the tokens inside keep theirs.
    pub open spec fn with_span(self, span: Span) -> Token {
        match self {
            Token::Word(text, _) => Token::Word(text, span),
            Token::Punct(ch, spacing, _) => Token::Punct(ch, spacing, span),
            Token::Number(value, _) => Token::Number(value, span),
            Token::Literal(text, _) => Token::Literal(text, span),
            Token::Group(delimiter, inner, _) => Token::Group(delimiter, inner, span),
        }
    }
}

/// The characters that can stand as punctuation in a token stream.
pub open spec fn is_punctuation(c: char) -> bool {
    c == '!' || c == '#' || c == '$' || c == '%' || c == '&' || c == '\'' || c == '*' || c == '+'
        || c == ',' || c == '-' || c == '.' || c == '/' || c == ':' || c == ';' || c == '<' || c
        == '=' || c == '>' || c == '?' || c == '@' || c == '^' || c == '|' || c == '~'
}

/// `Ident::new` takes the text: it does not panic on it, and the word that it makes
/// has exactly this text.
pub uninterp spec fn word_accepted(text: Seq<char>) -> bool;

/// A text of which a word can be made: an ASCII identifier, or a text that is known
/// to be taken.
pub open spec fn is_writable(text: Seq<char>) -> bool {
    is_ascii_identifier(text) || word_accepted(text)
}

/// The text of a word, as its `Display` prints it.
pub uninterp spec fn ident_text(ident: Ident) -> Seq<char>;

/// The span of a word, as `Ident::span` gives it.
pub uninterp spec fn ident_span(ident: Ident) -> Span;

/// The token that a token tree is.
pub uninterp spec fn tree_token(tree: TokenTree) -> Token;

/// The token trees that a stream holds, first to last.
pub uninterp spec fn stream_tokens(stream: TokenStream) -> Seq<Token>;

/// `Span::call_site`: the span of the macro invocation that is being expanded. Nothing
/// is claimed of it.
#[verifier::external_body]
pub(crate) fn call_site() -> (site: Span) {
    Span::call_site()
}

/// `TokenStream::new`: the stream it returns holds no token.
#[verifier::external_body]
pub(crate) fn empty_stream() -> (stream: TokenStream)
    ensures
        stream_tokens(stream) == Seq::<Token>::empty(),
{
    TokenStream::new()
}

/// `Ident::new`, as a token tree: a word with the given text and span. `Ident::new`
/// panics on text that is no identifier, hence the `requires`: a text of ASCII
/// letters, digits and underscores that starts with no digit is an identifier, and of
/// any other text it must be known that it is taken.
#[verifier::external_body]
pub(crate) fn new_word(text: &str, span: Span) -> (tree: TokenTree)
    requires
        is_ascii_identifier(text@) || word_accepted(text@),
    ensures
        tree_token(tree) == Token::Word(text@, span),
{
    TokenTree::Ident(Ident::new(text, span))
}

/// `ToString::to_string` of an `Ident`: its text. A word is an identifier, a raw
/// identifier, or a word that the compiler writes with a mark of its own; the text of
/// the first has no ASCII character but letters, digits and `_`, that of the others
/// has one (`#`, `$`). So where the text is plain the word is an identifier, and with
/// letters, digits and underscores behind it the text is still one that `Ident::new`
/// takes.
#[verifier::external_body]
pub(crate) fn word_text(word: &Ident) -> (text: String)
    ensures
        text@ == ident_text(*word),
        is_plain_word(text@) ==> forall|tail: Seq<char>| #[trigger]
            is_identifier_tail(tail) ==> word_accepted(text@ + tail),
{
    word.to_string()
}

/// `TokenTree::from` an `Ident`: the word, with the text and the span that it has.
#[verifier::external_body]
pub(crate) fn word_tree(word: Ident) -> (tree: TokenTree)
    ensures
        tree_token(tree) == Token::Word(ident_text(word), ident_span(word)),
{
    TokenTree::from(word)
}

/// `Punct::new`, as a token tree: the character with the given spacing; its span is
/// left open. `Punct::new` panics on any other character than those of
/// `is_punctuation`, hence the `requires`.
#[verifier::external_body]
pub(crate) fn new_punct(ch: char, spacing: Spacing) -> (tree: TokenTree)
    requires
        is_punctuation(ch),
    ensures
        tree_token(tree) is Punct,
        tree_token(tree)->Punct_0 == ch,
        tree_token(tree)->Punct_1 == spacing,
{
    let spacing = match spacing {
        Spacing::Alone => proc_macro2::Spacing::Alone,
        Spacing::Joint => proc_macro2::Spacing::Joint,
    };
    TokenTree::Punct(Punct::new(ch, spacing))
}

/// `Literal::usize_unsuffixed`, as a token tree: an integer literal without a suffix
/// that has the given value; its span is left open.
#[verifier::external_body]
pub(crate) fn new_number(value: usize) -> (tree: TokenTree)
    ensures
        tree_token(tree) is Number,
        tree_token(tree)->Number_0 == value,
{
    TokenTree::Literal(Literal::usize_unsuffixed(value))
}

/// `Group::new`, as a token tree: a group with the given delimiter that holds what
/// `inner` held; its span is left open.
#[verifier::external_body]
pub(crate) fn new_group(delimiter: Delimiter, inner: TokenStream) -> (tree: TokenTree)
    ensures
        tree_token(tree) is Group,
        tree_token(tree)->Group_0 == delimiter,
        tree_token(tree)->Group_1 == stream_tokens(inner),
{
    let delimiter = match delimiter {
        Delimiter::Parenthesis => proc_macro2::Delimiter::Parenthesis,
        Delimiter::Brace => proc_macro2::Delimiter::Brace,
        Delimiter::Bracket => proc_macro2::Delimiter::Bracket,
        Delimiter::Invisible => proc_macro2::Delimiter::None,
    };
    TokenTree::Group(Group::new(delimiter, inner))
}

/// `TokenTree::set_span`: the token gets the given span and is otherwise unchanged; in
/// a group, the tokens inside keep their spans.
#[verifier::external_body]
pub(crate) fn set_span(tree: &mut TokenTree, span: Span)
    ensures
        tree_token(*final(tree)) == tree_token(*old(tree)).with_span(span),
{
    tree.set_span(span);
}

/// `TokenStreamExt::append`: the stream gains the token at its end. A literal with a
/// sign may be split in two on the way, hence the `requires`, which leaves out every
/// literal that is no plain number.
#[verifier::external_body]
pub(crate) fn push_tree(stream: &mut TokenStream, tree: TokenTree)
    requires
        !(tree_token(tree) is Literal),
    ensures
        stream_tokens(*final(stream)) == stream_tokens(*old(stream)).push(tree_token(tree)),
{
    stream.append(tree);
}

/// Appends a word with the given text and span.
pub(crate) fn push_ident(stream: &mut TokenStream, text: &str, span: Span)
    requires
        is_writable(text@),
    ensures
        stream_tokens(*final(stream)) == stream_tokens(*old(stream)).push(
            Token::Word(text@, span),
        ),
{
    push_tree(stream, new_word(text, span));
}

/// Appends a word as it was written, with the text and the span that it has.
pub(crate) fn push_word(stream: &mut TokenStream, word: &Ident)
    ensures
        stream_tokens(*final(stream)) == stream_tokens(*old(stream)).push(
            Token::Word(ident_text(*word), ident_span(*word)),
        ),
{
    push_tree(stream, word_tree(word.clone()));
}

/// Appends a punctuation character with the given spacing and span.
pub(crate) fn push_punct(stream: &mut TokenStream, ch: char, spacing: Spacing, span: Span)
    requires
        is_punctuation(ch),
    ensures
        stream_tokens(*final(stream)) == stream_tokens(*old(stream)).push(
            Token::Punct(ch, spacing, span),
        ),
{
    let mut tree = new_punct(ch, spacing);
    set_span(&mut tree, span);
    push_tree(stream, tree);
}

/// Appends an integer literal with the given value and span.
pub(crate) fn push_number(stream: &mut TokenStream, value: usize, span: Span)
    ensures
        stream_tokens(*final(stream)) == stream_tokens(*old(stream)).push(
            Token::Number(value as nat, span),
        ),
{
    let mut tree = new_number(value);
    set_span(&mut tree, span);
    push_tree(stream, tree);
}

/// Appends a group with the given delimiter and span that holds what `inner` held.
pub(crate) fn push_group(
    stream: &mut TokenStream,
    delimiter: Delimiter,
    inner: TokenStream,
    span: Span,
)
    ensures
        stream_tokens(*final(stream)) == stream_tokens(*old(stream)).push(
            Token::Group(delimiter, stream_tokens(inner), span),
        ),
{
    let mut tree = new_group(delimiter, inner);
    set_span(&mut tree, span);
    push_tree(stream, tree);
}

} // verus!
