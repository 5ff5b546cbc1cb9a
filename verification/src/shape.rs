//! Type definitions as the generator reads them, and the classification of their fields.

use crate::token::{ident_span, ident_text};
use proc_macro2::{Ident, Span};
use vstd::prelude::*;

verus! {

/// Why nothing is generated for a definition.
#[derive(Clone, Copy, Debug, PartialEq, Eq, Structural)]
pub enum GenerateError {
    /// The definition is an enum or a union.
    UnsupportedShape,
    /// The name of the definition is a raw identifier, such as `r#type`, or another
    /// word that is written with a mark: with a suffix behind it, it is no name.
    InvalidIdentifier,
}

/// The name of a type, as the word that was written.
#[derive(Clone, Debug)]
pub struct TypeName {
    pub ident: Ident,
}

/// A `TypeName` in the contracts: the text of the word and its span.
pub struct TypeNameView {
    pub text: Seq<char>,
    pub span: Span,
}

impl View for TypeName {
    type V = TypeNameView;

    open spec fn view(&self) -> TypeNameView {
        TypeNameView { text: ident_text(self.ident), span: ident_span(self.ident) }
    }
}

/// One declared field: its name, if it has one, as the word that was written, and
/// the place of its declaration. Nothing is read out of the name: it is put into the
/// output as it is.
#[derive(Clone, Debug)]
pub struct Field {
    pub name: Option<Ident>,
    pub span: Span,
}

/// What follows the name in a type definition.
#[derive(Clone, Debug)]
pub enum Body {
    /// `struct S;`
    Unit,
    /// `struct S(A, B);`
    Tuple(Vec<Field>),
    /// `struct S { a: A, b: B }`
    Record(Vec<Field>),
    /// `enum E { .. }`
    Enum,
    /// `union U { .. }`
    Union,
}

/// A `Body` in the contracts.
pub enum BodyView {
    Unit,
    Tuple(Seq<Field>),
    Record(Seq<Field>),
    Enum,
    Union,
}

impl View for Body {
    type V = BodyView;

    open spec fn view(&self) -> BodyView {
        match *self {
            Body::Unit => BodyView::Unit,
            Body::Tuple(fields) => BodyView::Tuple(fields@),
            Body::Record(fields) => BodyView::Record(fields@),
            Body::Enum => BodyView::Enum,
            Body::Union => BodyView::Union,
        }
    }
}

/// A type definition: the input of the generator.
#[derive(Clone, Debug)]
pub struct TypeDefinition {
    pub name: TypeName,
    pub body: Body,
}

/// A `TypeDefinition` in the contracts.
pub struct TypeDefinitionView {
    pub name: TypeNameView,
    pub body: BodyView,
}

impl View for TypeDefinition {
    type V = TypeDefinitionView;

    open spec fn view(&self) -> TypeDefinitionView {
        TypeDefinitionView { name: self.name@, body: self.body@ }
    }
}

/// How generated code reaches a field of `self`.
#[derive(Clone, Debug)]
pub enum Accessor {
    /// By zero-based position, as in `self.0`.
    Index(usize),
    /// By name, as in `self.x`.
    Name(Ident),
    /// Not at all: a field of a record struct that was given no name. Nothing is
    /// written behind `self.` for it.
    Nameless,
}

/// An `Accessor` in the contracts.
pub enum AccessorView {
    Index(nat),
    Name(Ident),
    Nameless,
}

impl View for Accessor {
    type V = AccessorView;

    open spec fn view(&self) -> AccessorView {
        match *self {
            Accessor::Index(position) => AccessorView::Index(position as nat),
            Accessor::Name(name) => AccessorView::Name(name),
            Accessor::Nameless => AccessorView::Nameless,
        }
    }
}

/// A field as the synthesis sees it: how to reach it, and where a complaint about
/// it belongs.
#[derive(Clone, Debug)]
pub struct FieldDescriptor {
    pub accessor: Accessor,
    pub source_span: Span,
}

/// A `FieldDescriptor` in the contracts.
pub struct FieldDescriptorView {
    pub accessor: AccessorView,
    pub source_span: Span,
}

impl View for FieldDescriptor {
    type V = FieldDescriptorView;

    open spec fn view(&self) -> FieldDescriptorView {
        FieldDescriptorView { accessor: self.accessor@, source_span: self.source_span }
    }
}

/// The three shapes that the fields of a product type can take.
#[derive(Clone, Debug)]
pub enum FieldShape {
    NoFields,
    PositionalFields(Vec<FieldDescriptor>),
    NamedFields(Vec<FieldDescriptor>),
}

/// A `FieldShape` in the contracts.
pub enum FieldShapeView {
    NoFields,
    PositionalFields(Seq<FieldDescriptorView>),
    NamedFields(Seq<FieldDescriptorView>),
}

impl View for FieldShape {
    type V = FieldShapeView;

    open spec fn view(&self) -> FieldShapeView {
        match *self {
            FieldShape::NoFields => FieldShapeView::NoFields,
            FieldShape::PositionalFields(descriptors) => FieldShapeView::PositionalFields(
                descriptors@.map_values(|d: FieldDescriptor| d@),
            ),
            FieldShape::NamedFields(descriptors) => FieldShapeView::NamedFields(
                descriptors@.map_values(|d: FieldDescriptor| d@),
            ),
        }
    }
}

impl FieldShapeView {
    /// The descriptors of the shape, in declaration order.
    pub open spec fn descriptors(self) -> Seq<FieldDescriptorView> {
        match self {
            FieldShapeView::NoFields => Seq::empty(),
            FieldShapeView::PositionalFields(descriptors) => descriptors,
            FieldShapeView::NamedFields(descriptors) => descriptors,
        }
    }
}

impl BodyView {
    /// The fields that a struct declares, in declaration order; `None` for an enum
    /// and for a union.
    pub open spec fn fields(self) -> Option<Seq<Field>> {
        match self {
            BodyView::Unit => Some(Seq::empty()),
            BodyView::Tuple(fields) => Some(fields),
            BodyView::Record(fields) => Some(fields),
            BodyView::Enum => None,
            BodyView::Union => None,
        }
    }
}

/// The descriptor of the field declared at `position` of a tuple struct.
pub open spec fn positional_descriptor(fields: Seq<Field>, position: int) -> FieldDescriptorView {
    FieldDescriptorView {
        accessor: AccessorView::Index(position as nat),
        source_span: fields[position].span,
    }
}

/// The descriptor of the field declared at `position` of a record struct. A field
/// that was given no name, which no parser yields, cannot be reached.
pub open spec fn named_descriptor(fields: Seq<Field>, position: int) -> FieldDescriptorView {
    FieldDescriptorView {
        accessor: match fields[position].name {
            Some(name) => AccessorView::Name(name),
            None => AccessorView::Nameless,
        },
        source_span: fields[position].span,
    }
}

/// The shape of the fields of a body, or the reason why it has none: a struct
/// without fields has the shape `NoFields` however it is written, and an enum or a
/// union is refused.
pub open spec fn analysis(body: BodyView) -> Result<FieldShapeView, GenerateError> {
    match body {
        BodyView::Unit => Ok(FieldShapeView::NoFields),
        BodyView::Tuple(fields) => Ok(
            if fields.len() == 0 {
                FieldShapeView::NoFields
            } else {
                FieldShapeView::PositionalFields(
                    Seq::new(fields.len(), |i: int| positional_descriptor(fields, i)),
                )
            },
        ),
        BodyView::Record(fields) => Ok(
            if fields.len() == 0 {
                FieldShapeView::NoFields
            } else {
                FieldShapeView::NamedFields(
                    Seq::new(fields.len(), |i: int| named_descriptor(fields, i)),
                )
            },
        ),
        BodyView::Enum => Err(GenerateError::UnsupportedShape),
        BodyView::Union => Err(GenerateError::UnsupportedShape),
    }
}

/// The descriptors of the fields of a tuple struct.
fn positional_descriptors(fields: &Vec<Field>) -> (descriptors: Vec<FieldDescriptor>)
    ensures
        descriptors@.map_values(|d: FieldDescriptor| d@) == Seq::new(
            fields@.len(),
            |i: int| positional_descriptor(fields@, i),
        ),
{
    let ghost views = fields@;
    let mut descriptors: Vec<FieldDescriptor> = Vec::new();
    let mut position: usize = 0;
    while position < fields.len()
        invariant
            position <= fields.len(),
            views == fields@,
            descriptors@.len() == position,
            forall|i: int|
                0 <= i < position ==> (#[trigger] descriptors@[i])@ == positional_descriptor(
                    views,
                    i,
                ),
        decreases fields.len() - position,
    {
        descriptors.push(
            FieldDescriptor {
                accessor: Accessor::Index(position),
                source_span: fields[position].span,
            },
        );
        position += 1;
    }
    assert(descriptors@.map_values(|d: FieldDescriptor| d@) =~= Seq::new(
        views.len(),
        |i: int| positional_descriptor(views, i),
    ));
    descriptors
}

/// The descriptors of the fields of a record struct.
fn named_descriptors(fields: &Vec<Field>) -> (descriptors: Vec<FieldDescriptor>)
    ensures
        descriptors@.map_values(|d: FieldDescriptor| d@) == Seq::new(
            fields@.len(),
            |i: int| named_descriptor(fields@, i),
        ),
{
    let ghost views = fields@;
    let mut descriptors: Vec<FieldDescriptor> = Vec::new();
    let mut position: usize = 0;
    while position < fields.len()
        invariant
            position <= fields.len(),
            views == fields@,
            descriptors@.len() == position,
            forall|i: int|
                0 <= i < position ==> (#[trigger] descriptors@[i])@ == named_descriptor(views, i),
        decreases fields.len() - position,
    {
        let accessor = match &fields[position].name {
            Some(name) => Accessor::Name(name.clone()),
            None => Accessor::Nameless,
        };
        descriptors.push(FieldDescriptor { accessor, source_span: fields[position].span });
        position += 1;
    }
    assert(descriptors@.map_values(|d: FieldDescriptor| d@) =~= Seq::new(
        views.len(),
        |i: int| named_descriptor(views, i),
    ));
    descriptors
}

/// Classifies the fields that follow the name of a definition. A struct without
/// fields, however it is written, has the shape `NoFields`; a tuple struct gives one
/// descriptor per field, reached by position; a record struct one per field, reached
/// by its name; an enum or a union is refused.
pub fn classify(body: &Body) -> (outcome: Result<FieldShape, GenerateError>)
    ensures
        outcome matches Ok(shape) ==> analysis(body@) == Ok::<FieldShapeView, GenerateError>(
            shape@,
        ),
        outcome matches Err(error) ==> analysis(body@) == Err::<FieldShapeView, GenerateError>(
            error,
        ),
{
    match body {
        Body::Unit => Ok(FieldShape::NoFields),
        Body::Tuple(fields) => {
            if fields.len() == 0 {
                Ok(FieldShape::NoFields)
            } else {
                Ok(FieldShape::PositionalFields(positional_descriptors(fields)))
            }
        },
        Body::Record(fields) => {
            if fields.len() == 0 {
                Ok(FieldShape::NoFields)
            } else {
                Ok(FieldShape::NamedFields(named_descriptors(fields)))
            }
        },
        Body::Enum => Err(GenerateError::UnsupportedShape),
        Body::Union => Err(GenerateError::UnsupportedShape),
    }
}

/// Classifies the fields of a definition: see `classify`. The name of the definition
/// plays no part.
pub fn analyze(definition: &TypeDefinition) -> (outcome: Result<FieldShape, GenerateError>)
    ensures
        outcome matches Ok(shape) ==> analysis(definition@.body) == Ok::<
            FieldShapeView,
            GenerateError,
        >(shape@),
        outcome matches Err(error) ==> analysis(definition@.body) == Err::<
            FieldShapeView,
            GenerateError,
        >(error),
{
    classify(&definition.body)
}

} // verus!
