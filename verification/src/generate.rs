//! From a definition to the tokens that are generated for it.

use crate::emit::{
    artifact_tokens, artifact_writable, contribution_tokens, definition_tokens,
    emit_definitions, emit_size_expression, law_size_expression_layout, marker_tokens,
    size_tokens, term_slice,
};
use crate::ident::{is_identifier_tail, is_plain_word, is_plain_word_text};
use crate::shape::{
    analysis, classify, named_descriptor, positional_descriptor, AccessorView, Body, BodyView,
    Field, FieldShapeView, GenerateError, TypeDefinition, TypeDefinitionView, TypeNameView,
};
use crate::syntax::{
    declared_body, declared_definition, error_stream, error_tokens, parse_input, parsed_input,
    read_body, read_definition,
};
use crate::synth::{
    companion, evaluate, size_expression, size_terms, synthesis, synthesize, ContributionView,
    DerivedFieldView, Scalar, SynthesisView, SUFFIX,
};
use crate::token::{call_site, stream_tokens, word_text, Spacing, Token};
use proc_macro2::{Ident, Span, TokenStream};
use syn::{Data, DeriveInput};
use vstd::prelude::*;

verus! {

/// The tokens that are generated for one definition.
#[derive(Debug)]
pub struct Expansion {
    /// The size expression of the type.
    pub size_expression: TokenStream,
    /// The companion type and, behind it, the marker association.
    pub definitions: TokenStream,
}

/// The terms of the size expression that is written for a body, or the reason why
/// none is.
pub open spec fn size_plan(body: BodyView) -> Result<Seq<ContributionView>, GenerateError> {
    match analysis(body) {
        Err(error) => Err(error),
        Ok(shape) => Ok(size_terms(shape)),
    }
}

/// What is derived from a definition, or the reason why nothing is: its body is
/// refused, or else its name is a raw identifier or another word with a mark, of
/// which no name of a companion can be made.
pub open spec fn plan(definition: TypeDefinitionView) -> Result<SynthesisView, GenerateError> {
    match analysis(definition.body) {
        Err(error) => Err(error),
        Ok(shape) => if is_plain_word(definition.name.text) {
            Ok(synthesis(definition.name, shape))
        } else {
            Err(GenerateError::InvalidIdentifier)
        },
    }
}

/// `outcome` is the size expression `expected`, written with `site`, or its error.
pub open spec fn measured(
    outcome: Result<TokenStream, GenerateError>,
    expected: Result<Seq<ContributionView>, GenerateError>,
    site: Span,
) -> bool {
    match expected {
        Err(error) => outcome == Err::<TokenStream, GenerateError>(error),
        Ok(terms) => outcome matches Ok(stream) && stream_tokens(stream) == size_tokens(
            terms,
            site,
        ),
    }
}

/// `outcome` is what `expected` derives, written with `site`, or its error.
pub open spec fn expanded(
    outcome: Result<Expansion, GenerateError>,
    expected: Result<SynthesisView, GenerateError>,
    site: Span,
) -> bool {
    match expected {
        Err(error) => outcome == Err::<Expansion, GenerateError>(error),
        Ok(derived) => {
            &&& outcome matches Ok(expansion)
            &&& stream_tokens(expansion.size_expression) == size_tokens(
                derived.size_expression,
                site,
            )
            &&& stream_tokens(expansion.definitions) == definition_tokens(derived, site)
        },
    }
}

/// `outcome` holds the definitions that `expected` derives, written with `site`, or
/// is its error.
pub open spec fn defined(
    outcome: Result<TokenStream, GenerateError>,
    expected: Result<SynthesisView, GenerateError>,
    site: Span,
) -> bool {
    match expected {
        Err(error) => outcome == Err::<TokenStream, GenerateError>(error),
        Ok(derived) => outcome matches Ok(stream) && stream_tokens(stream) == definition_tokens(
            derived,
            site,
        ),
    }
}

/// Writes the size expression of a body, with `site` as the span of what belongs to
/// no field. An enum or a union gives `UnsupportedShape`, and nothing is written.
pub fn measure_fields(body: &Body, site: Span) -> (outcome: Result<TokenStream, GenerateError>)
    ensures
        measured(outcome, size_plan(body@), site),
{
    let shape = match classify(body) {
        Ok(shape) => shape,
        Err(error) => {
            return Err(error);
        },
    };
    Ok(emit_size_expression(&size_expression(&shape), site))
}

/// Generates everything for one definition, with `site` as the span of what belongs
/// neither to a field nor to the name of the definition. An enum or a union gives
/// `UnsupportedShape`; any other definition whose name is a raw identifier, or
/// another word with a mark, gives `InvalidIdentifier`. In both cases nothing is
/// written. A name in any script is taken.
pub fn expand(definition: &TypeDefinition, site: Span) -> (outcome: Result<
    Expansion,
    GenerateError,
>)
    ensures
        expanded(outcome, plan(definition@), site),
{
    let shape = match classify(&definition.body) {
        Ok(shape) => shape,
        Err(error) => {
            return Err(error);
        },
    };
    let name = word_text(&definition.name.ident);
    if !is_plain_word_text(name.as_str()) {
        return Err(GenerateError::InvalidIdentifier);
    }
    let derived = synthesize(&definition.name, &shape);
    proof {
        reveal_strlit("Bson");
        reveal_strlit("a");
        reveal_strlit("b");
        assert(is_identifier_tail(SUFFIX@));
    }
    let size_expression = emit_size_expression(&derived.size_expression, site);
    let definitions = emit_definitions(&derived, site);
    Ok(Expansion { size_expression, definitions })
}

/// Writes the size expression of a parsed definition: `measure_fields` on what the
/// `Data` declares, with the call site as `site`.
pub fn fields(data: &Data) -> (outcome: Result<TokenStream, GenerateError>)
    ensures
        exists|site: Span| measured(outcome, size_plan(declared_body(*data)), site),
{
    let body = read_body(data);
    let site = call_site();
    let outcome = measure_fields(&body, site);
    assert(measured(outcome, size_plan(declared_body(*data)), site));
    outcome
}

/// Generates everything for a parsed definition: `expand` on what the input declares,
/// with the call site as `site`.
pub fn impl_duplicate_type_macro(input: &DeriveInput) -> (outcome: Result<
    Expansion,
    GenerateError,
>)
    ensures
        exists|site: Span| expanded(outcome, plan(declared_definition(*input)), site),
{
    let definition = read_definition(input);
    let site = call_site();
    let outcome = expand(&definition, site);
    assert(expanded(outcome, plan(declared_definition(*input)), site));
    outcome
}

/// Expands the derive on a stream of tokens: gives what is to be added to the program.
/// For a stream that parses as a definition these are the definitions that
/// `impl_duplicate_type_macro` writes for it, or else its error. The size expression
/// is not among them: what a derive adds stands among the items of a program, where
/// an expression cannot stand; it is for the body of a size measurement, which the
/// derive does not define. For a stream that does not parse the tokens are those of
/// the parser's error, as `syn` writes them where it is asked on this thread and at
/// this call site.
pub fn duplicate_type_derive(input: TokenStream) -> (outcome: Result<TokenStream, GenerateError>)
    ensures
        parsed_input(input) matches Err(error) ==> outcome matches Ok(stream) && exists|
            site: Span,
            thread: nat,
        | stream_tokens(stream) == error_tokens(error, site, thread),
        parsed_input(input) matches Ok(definition) ==> exists|site: Span|
            defined(outcome, plan(declared_definition(definition)), site),
{
    match parse_input(input) {
        Err(error) => Ok(error_stream(&error)),
        Ok(definition) => {
            let expanded_outcome = impl_duplicate_type_macro(&definition);
            let ghost expected = plan(declared_definition(definition));
            let ghost site = choose|site: Span| expanded(expanded_outcome, expected, site);
            let outcome = match expanded_outcome {
                Ok(expansion) => Ok(expansion.definitions),
                Err(error) => Err(error),
            };
            assert(defined(outcome, expected, site));
            outcome
        },
    }
}

/// A struct that declares no field, however it is written, has a size expression
/// without terms: it evaluates to 0 whatever the measure of a term is, and it is
/// written as the single literal `0`.
pub proof fn law_no_fields_measure_zero(
    body: BodyView,
    measure: spec_fn(ContributionView) -> nat,
    site: Span,
)
    requires
        body.fields() matches Some(fields) && fields.len() == 0,
    ensures
        analysis(body) == Ok::<FieldShapeView, GenerateError>(FieldShapeView::NoFields),
        size_plan(body) matches Ok(terms) && {
            &&& terms.len() == 0
            &&& evaluate(terms, measure) == 0
            &&& size_tokens(terms, site) == seq![Token::Number(0, site)]
        },
{
    assert(size_terms(FieldShapeView::NoFields) =~= Seq::empty());
}

/// A tuple struct with N fields has a size expression of exactly N terms: the term
/// at each position reaches the field by that position and carries the span of its
/// declaration. It is written as the literal `0` and the N terms in declaration
/// order.
pub proof fn law_positional_terms(fields: Seq<Field>, site: Span)
    ensures
        size_plan(BodyView::Tuple(fields)) matches Ok(terms) && {
            &&& terms.len() == fields.len()
            &&& forall|i: int|
                0 <= i < fields.len() ==> #[trigger] terms[i] == (ContributionView {
                    accessor: AccessorView::Index(i as nat),
                    span: fields[i].span,
                })
            &&& size_tokens(terms, site).len() == 1 + 9 * fields.len()
            &&& size_tokens(terms, site)[0] == Token::Number(0, site)
            &&& forall|i: int|
                0 <= i < fields.len() ==> #[trigger] term_slice(size_tokens(terms, site), i)
                    == seq![Token::Punct('+', Spacing::Alone, site)] + contribution_tokens(
                    terms[i],
                )
        },
{
    let shape = analysis(BodyView::Tuple(fields))->Ok_0;
    let terms = size_terms(shape);
    if fields.len() == 0 {
        assert(terms =~= Seq::empty());
    }
    assert(terms.len() == fields.len());
    assert forall|i: int| 0 <= i < fields.len() implies #[trigger] terms[i] == (ContributionView {
        accessor: AccessorView::Index(i as nat),
        span: fields[i].span,
    }) by {
        assert(shape.descriptors()[i] == positional_descriptor(fields, i));
    }
    law_size_expression_layout(terms, site);
}

/// A record struct with N fields, each with its name, has a size expression of
/// exactly N terms: the term at each position reaches the field by its name and
/// carries the span of its declaration. It is written as the literal `0` and the N
/// terms in declaration order.
pub proof fn law_named_terms(fields: Seq<Field>, names: Seq<Ident>, site: Span)
    requires
        names.len() == fields.len(),
        forall|i: int| 0 <= i < fields.len() ==> (#[trigger] fields[i]).name == Some(names[i]),
    ensures
        size_plan(BodyView::Record(fields)) matches Ok(terms) && {
            &&& terms.len() == fields.len()
            &&& forall|i: int|
                0 <= i < fields.len() ==> #[trigger] terms[i] == (ContributionView {
                    accessor: AccessorView::Name(names[i]),
                    span: fields[i].span,
                })
            &&& size_tokens(terms, site).len() == 1 + 9 * fields.len()
            &&& size_tokens(terms, site)[0] == Token::Number(0, site)
            &&& forall|i: int|
                0 <= i < fields.len() ==> #[trigger] term_slice(size_tokens(terms, site), i)
                    == seq![Token::Punct('+', Spacing::Alone, site)] + contribution_tokens(
                    terms[i],
                )
        },
{
    let shape = analysis(BodyView::Record(fields))->Ok_0;
    let terms = size_terms(shape);
    if fields.len() == 0 {
        assert(terms =~= Seq::empty());
    }
    assert(terms.len() == fields.len());
    assert forall|i: int| 0 <= i < fields.len() implies #[trigger] terms[i] == (ContributionView {
        accessor: AccessorView::Name(names[i]),
        span: fields[i].span,
    }) by {
        assert(shape.descriptors()[i] == named_descriptor(fields, i));
        assert(fields[i].name == Some(names[i]));
    }
    law_size_expression_layout(terms, site);
}

/// The companion of a type is named by the type's name with `Bson` behind it and has
/// exactly the two fields `a` and `b`, both unsigned 32-bit integers; it can be
/// serialized. None of this, nor any token of its definition, depends on the shape
/// of the type's fields. The marker is for the type itself.
pub proof fn law_companion_ignores_shape(
    name: TypeNameView,
    first: FieldShapeView,
    second: FieldShapeView,
    site: Span,
)
    ensures
        synthesis(name, first).artifact == synthesis(name, second).artifact,
        synthesis(name, first).artifact.derived_name == name.text + "Bson"@,
        synthesis(name, first).artifact.fields == seq![
            DerivedFieldView { name: "a"@, ty: Scalar::Unsigned32 },
            DerivedFieldView { name: "b"@, ty: Scalar::Unsigned32 },
        ],
        synthesis(name, first).artifact.serialization_capable,
        synthesis(name, first).marker == name,
        definition_tokens(synthesis(name, first), site) == definition_tokens(
            synthesis(name, second),
            site,
        ),
        artifact_tokens(companion(name.text), site)[4] == Token::Word(name.text + "Bson"@, site),
{
}

/// Every struct whose name is an identifier, in whatever script, gets its companion,
/// named by that name with `Bson` behind it, once, and the marker for the name as it
/// was written: the definitions are those of the companion with the two fields and,
/// behind them, the marker association, and no others.
pub proof fn law_companion_of_every_struct(definition: TypeDefinitionView, site: Span)
    requires
        definition.body.fields() is Some,
        is_plain_word(definition.name.text),
    ensures
        plan(definition) matches Ok(derived) && {
            &&& derived.artifact == companion(definition.name.text)
            &&& derived.artifact.derived_name == definition.name.text + "Bson"@
            &&& derived.marker == definition.name
            &&& definition_tokens(derived, site) == artifact_tokens(
                companion(definition.name.text),
                site,
            ) + marker_tokens(definition.name, site)
            &&& definition_tokens(derived, site)[4] == Token::Word(
                definition.name.text + "Bson"@,
                site,
            )
            &&& definition_tokens(derived, site)[12] == Token::Word(
                definition.name.text,
                definition.name.span,
            )
        },
{
}

/// For an enum and for a union nothing is derived: neither a size expression nor any
/// definition is written, and every outcome is `UnsupportedShape`, whatever the name
/// of the definition is.
pub proof fn law_unsupported_aborts(
    definition: TypeDefinitionView,
    size_outcome: Result<TokenStream, GenerateError>,
    outcome: Result<Expansion, GenerateError>,
    definitions_outcome: Result<TokenStream, GenerateError>,
    site: Span,
)
    requires
        definition.body is Enum || definition.body is Union,
        measured(size_outcome, size_plan(definition.body), site),
        expanded(outcome, plan(definition), site),
        defined(definitions_outcome, plan(definition), site),
    ensures
        analysis(definition.body) == Err::<FieldShapeView, GenerateError>(
            GenerateError::UnsupportedShape,
        ),
        size_outcome == Err::<TokenStream, GenerateError>(GenerateError::UnsupportedShape),
        outcome == Err::<Expansion, GenerateError>(GenerateError::UnsupportedShape),
        definitions_outcome == Err::<TokenStream, GenerateError>(
            GenerateError::UnsupportedShape,
        ),
{
}

} // verus!
