//! What is derived from a classified definition: the size expression, the companion
//! type and the marker association.

use crate::shape::{
    Accessor, AccessorView, FieldDescriptor, FieldDescriptorView, FieldShape, FieldShapeView,
    TypeName, TypeNameView,
};
use crate::token::word_text;
use proc_macro2::Span;
use vstd::prelude::*;
use vstd::string::*;

verus! {

/// What is put behind the name of a type to name its companion.
pub const SUFFIX: &'static str = "Bson";

/// One term of a size expression: the measured footprint of the field that `accessor`
/// reaches. `span` is where a complaint about the term belongs.
#[derive(Clone, Debug)]
pub struct Contribution {
    pub accessor: Accessor,
    pub span: Span,
}

/// A `Contribution` in the contracts.
pub struct ContributionView {
    pub accessor: AccessorView,
    pub span: Span,
}

impl View for Contribution {
    type V = ContributionView;

    open spec fn view(&self) -> ContributionView {
        ContributionView { accessor: self.accessor@, span: self.span }
    }
}

/// The expression `0 + terms[0] + terms[1] + ..`.
#[derive(Clone, Debug)]
pub struct SizeExpression {
    pub terms: Vec<Contribution>,
}

impl View for SizeExpression {
    type V = Seq<ContributionView>;

    open spec fn view(&self) -> Seq<ContributionView> {
        self.terms@.map_values(|t: Contribution| t@)
    }
}

/// The type of a field of the companion type.
#[derive(Clone, Copy, Debug, PartialEq, Eq, Structural)]
pub enum Scalar {
    Unsigned32,
}

/// A field of the companion type.
#[derive(Clone, Debug, PartialEq, Eq)]
pub struct DerivedField {
    pub name: String,
    pub ty: Scalar,
}

/// A `DerivedField` in the contracts.
pub struct DerivedFieldView {
    pub name: Seq<char>,
    pub ty: Scalar,
}

impl View for DerivedField {
    type V = DerivedFieldView;

    open spec fn view(&self) -> DerivedFieldView {
        DerivedFieldView { name: self.name@, ty: self.ty }
    }
}

/// The companion type that is generated beside a type.
#[derive(Clone, Debug, PartialEq, Eq)]
pub struct GeneratedArtifact {
    pub derived_name: String,
    pub fields: Vec<DerivedField>,
    pub serialization_capable: bool,
}

/// A `GeneratedArtifact` in the contracts.
pub struct GeneratedArtifactView {
    pub derived_name: Seq<char>,
    pub fields: Seq<DerivedFieldView>,
    pub serialization_capable: bool,
}

impl View for GeneratedArtifact {
    type V = GeneratedArtifactView;

    open spec fn view(&self) -> GeneratedArtifactView {
        GeneratedArtifactView {
            derived_name: self.derived_name@,
            fields: self.fields@.map_values(|f: DerivedField| f@),
            serialization_capable: self.serialization_capable,
        }
    }
}

/// The record that a type has been processed: an implementation of the marker trait,
/// which has no methods, for the type `target` itself.
#[derive(Clone, Debug)]
pub struct MarkerAssociation {
    pub target: TypeName,
}

impl View for MarkerAssociation {
    type V = TypeNameView;

    open spec fn view(&self) -> TypeNameView {
        self.target@
    }
}

/// Everything that is derived from one definition.
#[derive(Clone, Debug)]
pub struct Synthesis {
    pub size_expression: SizeExpression,
    pub artifact: GeneratedArtifact,
    pub marker: MarkerAssociation,
}

/// A `Synthesis` in the contracts.
pub struct SynthesisView {
    pub size_expression: Seq<ContributionView>,
    pub artifact: GeneratedArtifactView,
    pub marker: TypeNameView,
}

impl View for Synthesis {
    type V = SynthesisView;

    open spec fn view(&self) -> SynthesisView {
        SynthesisView {
            size_expression: self.size_expression@,
            artifact: self.artifact@,
            marker: self.marker@,
        }
    }
}

/// The term that measures the field of a descriptor; it keeps the descriptor's span.
pub open spec fn contribution_of(descriptor: FieldDescriptorView) -> ContributionView {
    ContributionView { accessor: descriptor.accessor, span: descriptor.source_span }
}

/// The terms of the size expression of a shape: one per descriptor, in order.
pub open spec fn size_terms(shape: FieldShapeView) -> Seq<ContributionView> {
    shape.descriptors().map_values(|d: FieldDescriptorView| contribution_of(d))
}

/// What a size expression evaluates to when `measure` gives the value of each term:
/// `0 + measure(terms[0]) + measure(terms[1]) + ..`.
pub open spec fn evaluate(
    terms: Seq<ContributionView>,
    measure: spec_fn(ContributionView) -> nat,
) -> nat
    decreases terms.len(),
{
    if terms.len() == 0 {
        0
    } else {
        evaluate(terms.drop_last(), measure) + measure(terms.last())
    }
}

/// The name of the companion of the type named `name`.
pub open spec fn companion_name(name: Seq<char>) -> Seq<char> {
    name + SUFFIX@
}

/// The two fields that every companion type has.
pub open spec fn companion_fields() -> Seq<DerivedFieldView> {
    seq![
        DerivedFieldView { name: "a"@, ty: Scalar::Unsigned32 },
        DerivedFieldView { name: "b"@, ty: Scalar::Unsigned32 },
    ]
}

/// The companion of the type named `name`.
pub open spec fn companion(name: Seq<char>) -> GeneratedArtifactView {
    GeneratedArtifactView {
        derived_name: companion_name(name),
        fields: companion_fields(),
        serialization_capable: true,
    }
}

/// What is derived from the type `name` whose fields have the shape `shape`.
pub open spec fn synthesis(name: TypeNameView, shape: FieldShapeView) -> SynthesisView {
    SynthesisView {
        size_expression: size_terms(shape),
        artifact: companion(name.text),
        marker: name,
    }
}

/// A copy of an accessor.
fn copy_accessor(accessor: &Accessor) -> (copy: Accessor)
    ensures
        copy@ == accessor@,
{
    match accessor {
        Accessor::Index(position) => Accessor::Index(*position),
        Accessor::Name(name) => Accessor::Name(name.clone()),
        Accessor::Nameless => Accessor::Nameless,
    }
}

/// The terms that measure the fields of the descriptors, in their order.
fn contributions(descriptors: &Vec<FieldDescriptor>) -> (terms: Vec<Contribution>)
    ensures
        terms@.map_values(|t: Contribution| t@) == descriptors@.map_values(
            |d: FieldDescriptor| d@,
        ).map_values(|d: FieldDescriptorView| contribution_of(d)),
{
    let mut terms: Vec<Contribution> = Vec::new();
    let mut position: usize = 0;
    while position < descriptors.len()
        invariant
            position <= descriptors.len(),
            terms@.len() == position,
            forall|i: int|
                0 <= i < position ==> (#[trigger] terms@[i])@ == contribution_of(descriptors@[i]@),
        decreases descriptors.len() - position,
    {
        let descriptor = &descriptors[position];
        terms.push(
            Contribution {
                accessor: copy_accessor(&descriptor.accessor),
                span: descriptor.source_span,
            },
        );
        position += 1;
    }
    assert(terms@.map_values(|t: Contribution| t@) =~= descriptors@.map_values(
        |d: FieldDescriptor| d@,
    ).map_values(|d: FieldDescriptorView| contribution_of(d)));
    terms
}

/// Builds the size expression of a shape: the literal `0`, and behind it one term per
/// descriptor, in the order of the descriptors, each with the span of its descriptor.
pub fn size_expression(shape: &FieldShape) -> (expression: SizeExpression)
    ensures
        expression@ == size_terms(shape@),
{
    let terms = match shape {
        FieldShape::NoFields => Vec::new(),
        FieldShape::PositionalFields(descriptors) => contributions(descriptors),
        FieldShape::NamedFields(descriptors) => contributions(descriptors),
    };
    let expression = SizeExpression { terms };
    assert(expression@ =~= size_terms(shape@));
    expression
}

/// The name of the companion type: `name` with `SUFFIX` behind it.
pub fn derived_name(name: &str) -> (derived: String)
    ensures
        derived@ == companion_name(name@),
{
    let mut derived = name.to_owned();
    derived.append(SUFFIX);
    derived
}

/// Derives the size expression, the companion type and the marker association of the
/// type `name` whose fields have the shape `shape`. The companion depends on the name
/// alone, not on the shape; the marker is for the type itself, not for the companion.
pub fn synthesize(name: &TypeName, shape: &FieldShape) -> (derived: Synthesis)
    ensures
        derived@ == synthesis(name@, shape@),
{
    let mut fields: Vec<DerivedField> = Vec::new();
    fields.push(DerivedField { name: "a".to_owned(), ty: Scalar::Unsigned32 });
    fields.push(DerivedField { name: "b".to_owned(), ty: Scalar::Unsigned32 });
    let artifact = GeneratedArtifact {
        derived_name: derived_name(word_text(&name.ident).as_str()),
        fields,
        serialization_capable: true,
    };
    assert(artifact@.fields =~= companion_fields());
    let marker = MarkerAssociation { target: TypeName { ident: name.ident.clone() } };
    Synthesis { size_expression: size_expression(shape), artifact, marker }
}

} // verus!
