//! The tokens of the generated code: what they are, and the functions that write them.

use crate::ident::is_ascii_identifier;
use crate::shape::{Accessor, AccessorView, TypeNameView};
use crate::synth::{
    Contribution, ContributionView, DerivedField, DerivedFieldView, GeneratedArtifact,
    GeneratedArtifactView, MarkerAssociation, Scalar, SizeExpression, Synthesis, SynthesisView,
};
use crate::token::{
    empty_stream, ident_span, ident_text, is_writable, push_group, push_ident, push_number,
    push_punct, push_word, stream_tokens, Delimiter, Spacing, Token,
};
use proc_macro2::{Span, TokenStream};
use vstd::prelude::*;

verus! {

/// The two colons between the segments of a path.
pub open spec fn path_separator(span: Span) -> Seq<Token> {
    seq![Token::Punct(':', Spacing::Joint, span), Token::Punct(':', Spacing::Alone, span)]
}

/// What stands behind `self.` to reach a field: its position, or its name as it was
/// written, with the span of the name, or nothing for a field without a name. The
/// position is written with the span `span`, that of the field, as the rest of the
/// call is: a complaint about the call then points at the field as a whole.
pub open spec fn accessor_tokens(accessor: AccessorView, span: Span) -> Seq<Token> {
    match accessor {
        AccessorView::Index(position) => seq![Token::Number(position, span)],
        AccessorView::Name(name) => seq![Token::Word(ident_text(name), ident_span(name))],
        AccessorView::Nameless => Seq::empty(),
    }
}

/// What stands between the parentheses of a measuring call: `&self.` and the accessor.
pub open spec fn argument_tokens(term: ContributionView) -> Seq<Token> {
    seq![
        Token::Punct('&', Spacing::Alone, term.span),
        Token::Word("self"@, term.span),
        Token::Punct('.', Spacing::Alone, term.span),
    ] + accessor_tokens(term.accessor, term.span)
}

/// The call `heapsize::HeapSize::heap_size_of_children(&self.f)` for one term. Every
/// token of it carries the span of the term, but for the name of a field, which keeps
/// its own.
pub open spec fn contribution_tokens(term: ContributionView) -> Seq<Token> {
    seq![Token::Word("heapsize"@, term.span)] + path_separator(term.span) + seq![
        Token::Word("HeapSize"@, term.span),
    ] + path_separator(term.span) + seq![
        Token::Word("heap_size_of_children"@, term.span),
        Token::Group(Delimiter::Parenthesis, argument_tokens(term), term.span),
    ]
}

/// The tokens of a size expression: the literal `0`, then for each term, in order, a
/// `+` and the term's call. The literal and the `+` carry the span `site`.
pub open spec fn size_tokens(terms: Seq<ContributionView>, site: Span) -> Seq<Token>
    decreases terms.len(),
{
    if terms.len() == 0 {
        seq![Token::Number(0, site)]
    } else {
        size_tokens(terms.drop_last(), site).push(Token::Punct('+', Spacing::Alone, site))
            + contribution_tokens(terms.last())
    }
}

/// The tokens that the term at `position` takes up in a written size expression: nine
/// of them, behind the leading literal and the terms before it.
pub open spec fn term_slice(tokens: Seq<Token>, position: int) -> Seq<Token> {
    tokens.subrange(1 + 9 * position, 10 + 9 * position)
}

/// The name under which a scalar type is written.
pub open spec fn scalar_name(ty: Scalar) -> Seq<char> {
    match ty {
        Scalar::Unsigned32 => "u32"@,
    }
}

/// One field of the companion type: `name: type,`.
pub open spec fn field_tokens(field: DerivedFieldView, site: Span) -> Seq<Token> {
    seq![
        Token::Word(field.name, site),
        Token::Punct(':', Spacing::Alone, site),
        Token::Word(scalar_name(field.ty), site),
        Token::Punct(',', Spacing::Alone, site),
    ]
}

/// The fields of the companion type, one after the other.
pub open spec fn fields_tokens(fields: Seq<DerivedFieldView>, site: Span) -> Seq<Token>
    decreases fields.len(),
{
    if fields.len() == 0 {
        Seq::empty()
    } else {
        fields_tokens(fields.drop_last(), site) + field_tokens(fields.last(), site)
    }
}

/// What stands between the parentheses of `derive(..)`: `Debug`, and for a companion
/// that can be serialized, `serde::Serialize` and `serde::Deserialize` behind it.
pub open spec fn derive_list_tokens(serialization_capable: bool, site: Span) -> Seq<Token> {
    if serialization_capable {
        seq![Token::Word("Debug"@, site), Token::Punct(',', Spacing::Alone, site)] + seq![
            Token::Word("serde"@, site),
        ] + path_separator(site) + seq![
            Token::Word("Serialize"@, site),
            Token::Punct(',', Spacing::Alone, site),
            Token::Word("serde"@, site),
        ] + path_separator(site) + seq![Token::Word("Deserialize"@, site)]
    } else {
        seq![Token::Word("Debug"@, site)]
    }
}

/// The definition of the companion type:
/// `#[derive(..)] pub struct Name { field: type, .. }`, every token with the span `site`.
pub open spec fn artifact_tokens(artifact: GeneratedArtifactView, site: Span) -> Seq<Token> {
    seq![
        Token::Punct('#', Spacing::Alone, site),
        Token::Group(
            Delimiter::Bracket,
            seq![
                Token::Word("derive"@, site),
                Token::Group(
                    Delimiter::Parenthesis,
                    derive_list_tokens(artifact.serialization_capable, site),
                    site,
                ),
            ],
            site,
        ),
        Token::Word("pub"@, site),
        Token::Word("struct"@, site),
        Token::Word(artifact.derived_name, site),
        Token::Group(Delimiter::Brace, fields_tokens(artifact.fields, site), site),
    ]
}

/// The marker association: `impl duplicate::DuplicateMarker for Name {};`. The name
/// of the type is the word that was written, with its own span; everything else
/// carries the span `site`.
pub open spec fn marker_tokens(target: TypeNameView, site: Span) -> Seq<Token> {
    seq![Token::Word("impl"@, site), Token::Word("duplicate"@, site)] + path_separator(site)
        + seq![
        Token::Word("DuplicateMarker"@, site),
        Token::Word("for"@, site),
        Token::Word(target.text, target.span),
        Token::Group(Delimiter::Brace, Seq::empty(), site),
        Token::Punct(';', Spacing::Alone, site),
    ]
}

/// The definitions that are generated beside a type: its companion type, then the
/// marker association.
pub open spec fn definition_tokens(derived: SynthesisView, site: Span) -> Seq<Token> {
    artifact_tokens(derived.artifact, site) + marker_tokens(derived.marker, site)
}

/// Words can be made of the name of the companion type and of the names of its
/// fields.
pub open spec fn artifact_writable(artifact: GeneratedArtifactView) -> bool {
    &&& is_writable(artifact.derived_name)
    &&& forall|i: int|
        0 <= i < artifact.fields.len() ==> is_writable((#[trigger] artifact.fields[i]).name)
}

/// A written size expression starts with the literal `0`; behind it each term takes
/// up nine tokens, a `+` and its measuring call, and the terms stand in their order.
pub proof fn law_size_expression_layout(terms: Seq<ContributionView>, site: Span)
    ensures
        size_tokens(terms, site).len() == 1 + 9 * terms.len(),
        size_tokens(terms, site)[0] == Token::Number(0, site),
        forall|i: int|
            0 <= i < terms.len() ==> #[trigger] term_slice(size_tokens(terms, site), i) == seq![
                Token::Punct('+', Spacing::Alone, site),
            ] + contribution_tokens(terms[i]),
    decreases terms.len(),
{
    if terms.len() > 0 {
        let front = terms.drop_last();
        let whole = size_tokens(terms, site);
        let before = size_tokens(front, site);
        law_size_expression_layout(front, site);
        assert(whole =~= before.push(Token::Punct('+', Spacing::Alone, site))
            + contribution_tokens(terms.last()));
        assert(contribution_tokens(terms.last()).len() == 8);
        assert(whole[0] == before[0]);
        assert forall|i: int| 0 <= i < terms.len() implies #[trigger] term_slice(whole, i)
            == seq![Token::Punct('+', Spacing::Alone, site)] + contribution_tokens(terms[i]) by {
            if i < front.len() {
                assert(term_slice(whole, i) =~= term_slice(before, i));
                assert(front[i] == terms[i]);
            } else {
                assert(term_slice(whole, i) =~= seq![Token::Punct('+', Spacing::Alone, site)]
                    + contribution_tokens(terms.last()));
            }
        }
    }
}

/// The words that the generator writes of its own are identifiers.
proof fn lemma_fixed_words()
    ensures
        is_ascii_identifier("self"@),
        is_ascii_identifier("heapsize"@),
        is_ascii_identifier("HeapSize"@),
        is_ascii_identifier("heap_size_of_children"@),
        is_ascii_identifier("derive"@),
        is_ascii_identifier("Debug"@),
        is_ascii_identifier("serde"@),
        is_ascii_identifier("Serialize"@),
        is_ascii_identifier("Deserialize"@),
        is_ascii_identifier("pub"@),
        is_ascii_identifier("struct"@),
        is_ascii_identifier("u32"@),
        is_ascii_identifier("impl"@),
        is_ascii_identifier("duplicate"@),
        is_ascii_identifier("DuplicateMarker"@),
        is_ascii_identifier("for"@),
{
    reveal_strlit("self");
    reveal_strlit("heapsize");
    reveal_strlit("HeapSize");
    reveal_strlit("heap_size_of_children");
    reveal_strlit("derive");
    reveal_strlit("Debug");
    reveal_strlit("serde");
    reveal_strlit("Serialize");
    reveal_strlit("Deserialize");
    reveal_strlit("pub");
    reveal_strlit("struct");
    reveal_strlit("u32");
    reveal_strlit("impl");
    reveal_strlit("duplicate");
    reveal_strlit("DuplicateMarker");
    reveal_strlit("for");
}

/// Appends `::`.
fn write_path_separator(stream: &mut TokenStream, span: Span)
    ensures
        stream_tokens(*final(stream)) == stream_tokens(*old(stream)) + path_separator(span),
{
    push_punct(stream, ':', Spacing::Joint, span);
    push_punct(stream, ':', Spacing::Alone, span);
    assert(stream_tokens(*stream) =~= stream_tokens(*old(stream)) + path_separator(span));
}

/// Appends the measuring call of one term.
fn write_contribution(stream: &mut TokenStream, term: &Contribution)
    ensures
        stream_tokens(*final(stream)) == stream_tokens(*old(stream)) + contribution_tokens(term@),
{
    proof {
        lemma_fixed_words();
    }
    let span = term.span;
    let mut argument = empty_stream();
    push_punct(&mut argument, '&', Spacing::Alone, span);
    push_ident(&mut argument, "self", span);
    push_punct(&mut argument, '.', Spacing::Alone, span);
    match &term.accessor {
        Accessor::Index(position) => push_number(&mut argument, *position, span),
        Accessor::Name(name) => push_word(&mut argument, name),
        Accessor::Nameless => {},
    }
    assert(stream_tokens(argument) =~= argument_tokens(term@));
    push_ident(stream, "heapsize", span);
    write_path_separator(stream, span);
    push_ident(stream, "HeapSize", span);
    write_path_separator(stream, span);
    push_ident(stream, "heap_size_of_children", span);
    push_group(stream, Delimiter::Parenthesis, argument, span);
    assert(stream_tokens(*stream) =~= stream_tokens(*old(stream)) + contribution_tokens(term@));
}

/// Writes a size expression as tokens: `0`, then `+` and a measuring call for each
/// term, in the order of the terms. `site` becomes the span of the `0` and of each `+`;
/// the tokens of a call carry the span of its term, and the name of a field its own.
pub fn emit_size_expression(expression: &SizeExpression, site: Span) -> (stream: TokenStream)
    ensures
        stream_tokens(stream) == size_tokens(expression@, site),
{
    let mut stream = empty_stream();
    push_number(&mut stream, 0, site);
    let mut position: usize = 0;
    assert(expression@.take(0) =~= Seq::<ContributionView>::empty());
    while position < expression.terms.len()
        invariant
            position <= expression.terms.len(),
            stream_tokens(stream) == size_tokens(expression@.take(position as int), site),
        decreases expression.terms.len() - position,
    {
        let ghost before = expression@.take(position as int);
        let ghost after = expression@.take(position + 1);
        assert(expression@[position as int] == expression.terms@[position as int]@);
        push_punct(&mut stream, '+', Spacing::Alone, site);
        write_contribution(&mut stream, &expression.terms[position]);
        assert(after.drop_last() =~= before);
        assert(after.last() == expression@[position as int]);
        position += 1;
    }
    assert(expression@.take(position as int) =~= expression@);
    stream
}

/// Appends the name of a scalar type.
fn write_scalar(stream: &mut TokenStream, ty: Scalar, site: Span)
    ensures
        stream_tokens(*final(stream)) == stream_tokens(*old(stream)).push(
            Token::Word(scalar_name(ty), site),
        ),
{
    proof {
        lemma_fixed_words();
    }
    match ty {
        Scalar::Unsigned32 => push_ident(stream, "u32", site),
    }
}

/// Appends one field of the companion type.
fn write_field(stream: &mut TokenStream, field: &DerivedField, site: Span)
    requires
        is_writable(field@.name),
    ensures
        stream_tokens(*final(stream)) == stream_tokens(*old(stream)) + field_tokens(field@, site),
{
    push_ident(stream, field.name.as_str(), site);
    push_punct(stream, ':', Spacing::Alone, site);
    write_scalar(stream, field.ty, site);
    push_punct(stream, ',', Spacing::Alone, site);
    assert(stream_tokens(*stream) =~= stream_tokens(*old(stream)) + field_tokens(field@, site));
}

/// Fills an empty stream with the traits that the companion type derives.
fn write_derive_list(stream: &mut TokenStream, serialization_capable: bool, site: Span)
    requires
        stream_tokens(*old(stream)) == Seq::<Token>::empty(),
    ensures
        stream_tokens(*final(stream)) == derive_list_tokens(serialization_capable, site),
{
    proof {
        lemma_fixed_words();
    }
    push_ident(stream, "Debug", site);
    if serialization_capable {
        push_punct(stream, ',', Spacing::Alone, site);
        push_ident(stream, "serde", site);
        write_path_separator(stream, site);
        push_ident(stream, "Serialize", site);
        push_punct(stream, ',', Spacing::Alone, site);
        push_ident(stream, "serde", site);
        write_path_separator(stream, site);
        push_ident(stream, "Deserialize", site);
    }
    assert(stream_tokens(*stream) =~= derive_list_tokens(serialization_capable, site));
}

/// Appends the definition of the companion type.
fn write_artifact(stream: &mut TokenStream, artifact: &GeneratedArtifact, site: Span)
    requires
        artifact_writable(artifact@),
    ensures
        stream_tokens(*final(stream)) == stream_tokens(*old(stream)) + artifact_tokens(
            artifact@,
            site,
        ),
{
    proof {
        lemma_fixed_words();
    }
    let mut list = empty_stream();
    write_derive_list(&mut list, artifact.serialization_capable, site);
    let mut attribute = empty_stream();
    push_ident(&mut attribute, "derive", site);
    push_group(&mut attribute, Delimiter::Parenthesis, list, site);
    assert(stream_tokens(attribute) =~= seq![
        Token::Word("derive"@, site),
        Token::Group(
            Delimiter::Parenthesis,
            derive_list_tokens(artifact@.serialization_capable, site),
            site,
        ),
    ]);

    let mut body = empty_stream();
    let mut position: usize = 0;
    assert(artifact@.fields.take(0) =~= Seq::<DerivedFieldView>::empty());
    while position < artifact.fields.len()
        invariant
            position <= artifact.fields.len(),
            artifact_writable(artifact@),
            stream_tokens(body) == fields_tokens(artifact@.fields.take(position as int), site),
        decreases artifact.fields.len() - position,
    {
        let ghost before = artifact@.fields.take(position as int);
        let ghost after = artifact@.fields.take(position + 1);
        assert(artifact@.fields[position as int] == artifact.fields@[position as int]@);
        write_field(&mut body, &artifact.fields[position], site);
        assert(after.drop_last() =~= before);
        assert(after.last() == artifact@.fields[position as int]);
        position += 1;
    }
    assert(artifact@.fields.take(position as int) =~= artifact@.fields);

    push_punct(stream, '#', Spacing::Alone, site);
    push_group(stream, Delimiter::Bracket, attribute, site);
    push_ident(stream, "pub", site);
    push_ident(stream, "struct", site);
    push_ident(stream, artifact.derived_name.as_str(), site);
    push_group(stream, Delimiter::Brace, body, site);
    assert(stream_tokens(*stream) =~= stream_tokens(*old(stream)) + artifact_tokens(
        artifact@,
        site,
    ));
}

/// Appends the marker association.
fn write_marker(stream: &mut TokenStream, marker: &MarkerAssociation, site: Span)
    ensures
        stream_tokens(*final(stream)) == stream_tokens(*old(stream)) + marker_tokens(
            marker@,
            site,
        ),
{
    proof {
        lemma_fixed_words();
    }
    push_ident(stream, "impl", site);
    push_ident(stream, "duplicate", site);
    write_path_separator(stream, site);
    push_ident(stream, "DuplicateMarker", site);
    push_ident(stream, "for", site);
    push_word(stream, &marker.target.ident);
    push_group(stream, Delimiter::Brace, empty_stream(), site);
    push_punct(stream, ';', Spacing::Alone, site);
    assert(stream_tokens(*stream) =~= stream_tokens(*old(stream)) + marker_tokens(marker@, site));
}

/// Writes the generated definitions as tokens: the companion type with its `derive`
/// attribute, then the marker association for the type itself. `site` becomes the
/// span of every token but the name of the type in the marker association, which
/// is written as it is and keeps its own. `expand` is the way to the definitions of
/// a type whatever its name is.
pub fn emit_definitions(derived: &Synthesis, site: Span) -> (stream: TokenStream)
    requires
        artifact_writable(derived@.artifact),
    ensures
        stream_tokens(stream) == definition_tokens(derived@, site),
{
    let mut stream = empty_stream();
    write_artifact(&mut stream, &derived.artifact, site);
    write_marker(&mut stream, &derived.marker, site);
    assert(stream_tokens(stream) =~= definition_tokens(derived@, site));
    stream
}

} // verus!
