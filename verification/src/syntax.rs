//! Parsing a definition with `syn`, and reading what was parsed into the generator's
//! own terms.

use crate::shape::{
    Body, BodyView, Field, TypeDefinition, TypeDefinitionView, TypeName, TypeNameView,
};
use crate::token::{ident_span, ident_text, stream_tokens, Token};
use proc_macro2::{Ident, Span, TokenStream};
use syn::spanned::Spanned;
use syn::{Data, DeriveInput, Fields};
use vstd::prelude::*;

verus! {

/// `syn::DeriveInput`: a parsed definition, as a derive macro receives it.
#[verifier::external_type_specification]
#[verifier::external_body]
pub struct ExDeriveInput(DeriveInput);

/// `syn::Data`: what follows the name in a parsed definition.
#[verifier::external_type_specification]
#[verifier::external_body]
pub struct ExData(Data);

/// `syn::Error`: why a stream of tokens is no definition.
#[verifier::external_type_specification]
#[verifier::external_body]
pub struct ExSyntaxError(syn::Error);

/// What `syn::parse2` makes of a stream of tokens that is to be a definition: the
/// parsed definition, or the error that it reports.
pub uninterp spec fn parsed_input(stream: TokenStream) -> Result<DeriveInput, syn::Error>;

/// The tokens that `syn::Error::to_compile_error` writes for an error when it runs on
/// the thread `thread` and the call site is `site`: for each message of the error an
/// invocation of the macro that stops the compilation. The tokens of a message carry
/// the spans that the message was given where `thread` is the thread that made it,
/// and `site` on any other thread.
pub uninterp spec fn error_tokens(error: syn::Error, site: Span, thread: nat) -> Seq<Token>;

/// The `ident` of a parsed definition.
pub uninterp spec fn declared_ident(input: DeriveInput) -> Ident;

/// The `data` of a parsed definition.
pub uninterp spec fn declared_data(input: DeriveInput) -> Data;

/// What a parsed `Data` declares: which of the five forms it has, and for a struct
/// its fields in declaration order, each with its `ident` and with the span that
/// `Spanned::span` gives for the field.
pub uninterp spec fn declared_body(data: Data) -> BodyView;

/// The name that a parsed definition declares: the text of its `ident`, and the span
/// of that `ident`.
pub open spec fn declared_name(input: DeriveInput) -> TypeNameView {
    TypeNameView {
        text: ident_text(declared_ident(input)),
        span: ident_span(declared_ident(input)),
    }
}

/// The definition that a parsed input declares.
pub open spec fn declared_definition(input: DeriveInput) -> TypeDefinitionView {
    TypeDefinitionView { name: declared_name(input), body: declared_body(declared_data(input)) }
}

/// `syn::parse2` for a `DeriveInput`: this is what `parsed_input` stands for.
#[verifier::external_body]
pub(crate) fn parse_input(stream: TokenStream) -> (outcome: Result<DeriveInput, syn::Error>)
    ensures
        outcome == parsed_input(stream),
{
    syn::parse2::<DeriveInput>(stream)
}

/// `syn::Error::to_compile_error`: the error as tokens that stop the compilation
/// with its messages. Which spans they carry depends on the thread that asks and on
/// the call site, and both are left open.
#[verifier::external_body]
pub(crate) fn error_stream(error: &syn::Error) -> (stream: TokenStream)
    ensures
        exists|site: Span, thread: nat| stream_tokens(stream) == error_tokens(*error, site, thread),
{
    error.to_compile_error()
}

/// Borrows the field `ident` of a `DeriveInput`.
#[verifier::external_body]
pub(crate) fn read_ident(input: &DeriveInput) -> (ident: &Ident)
    ensures
        *ident == declared_ident(*input),
{
    &input.ident
}

/// Borrows the field `data` of a `DeriveInput`.
#[verifier::external_body]
pub(crate) fn read_data(input: &DeriveInput) -> (data: &Data)
    ensures
        *data == declared_data(*input),
{
    &input.data
}

/// Tells the variants of `Data` and of `Fields` apart and hands out what
/// `Fields::iter` walks over, each field as a clone of its `ident` and its
/// `Spanned::span`: this is what `declared_body` stands for.
#[verifier::external_body]
pub(crate) fn read_body(data: &Data) -> (body: Body)
    ensures
        body@ == declared_body(*data),
{
    match data {
        Data::Struct(item) => {
            let fields =
                item.fields.iter().map(|f| Field { name: f.ident.clone(), span: f.span() }).collect();
            match item.fields {
                Fields::Named(_) => Body::Record(fields),
                Fields::Unnamed(_) => Body::Tuple(fields),
                Fields::Unit => Body::Unit,
            }
        },
        Data::Enum(_) => Body::Enum,
        Data::Union(_) => Body::Union,
    }
}

/// Reads a parsed definition into the generator's own terms.
pub fn read_definition(input: &DeriveInput) -> (definition: TypeDefinition)
    ensures
        definition@ == declared_definition(*input),
{
    let name = TypeName { ident: read_ident(input).clone() };
    TypeDefinition { name, body: read_body(read_data(input)) }
}

} // verus!
