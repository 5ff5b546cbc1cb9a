use proc_macro2::{Ident, Span};
use type_duplicate_derive::shape::{Accessor, FieldDescriptor, FieldShape, TypeName};
use type_duplicate_derive::synth::{
    derived_name, size_expression, synthesize, DerivedField, GeneratedArtifact, Scalar, SUFFIX,
};

fn named_type(text: &str) -> TypeName {
    TypeName { ident: Ident::new(text, Span::call_site()) }
}

fn at(accessor: Accessor) -> FieldDescriptor {
    FieldDescriptor { accessor, source_span: Span::call_site() }
}

fn by_name(name: &str) -> FieldDescriptor {
    at(Accessor::Name(Ident::new(name, Span::call_site())))
}

fn shown(accessor: &Accessor) -> String {
    match accessor {
        Accessor::Index(position) => format!("#{position}"),
        Accessor::Name(name) => name.to_string(),
        Accessor::Nameless => String::new(),
    }
}

fn companion_of(name: &str) -> GeneratedArtifact {
    GeneratedArtifact {
        derived_name: format!("{name}Bson"),
        fields: vec![
            DerivedField { name: "a".to_string(), ty: Scalar::Unsigned32 },
            DerivedField { name: "b".to_string(), ty: Scalar::Unsigned32 },
        ],
        serialization_capable: true,
    }
}

#[test]
fn suffix_is_bson() {
    assert_eq!(SUFFIX, "Bson");
}

#[test]
fn derived_name_appends_the_suffix() {
    assert_eq!(derived_name("SomeStruct"), "SomeStructBson");
    assert_eq!(derived_name("X"), "XBson");
    assert_eq!(derived_name("Bson"), "BsonBson");
}

#[test]
fn derived_name_of_the_empty_name_is_the_suffix() {
    assert_eq!(derived_name(""), "Bson");
}

#[test]
fn size_expression_without_fields_has_no_terms() {
    let expression = size_expression(&FieldShape::NoFields);
    assert!(expression.terms.is_empty());
}

#[test]
fn size_expression_keeps_positional_order() {
    let shape = FieldShape::PositionalFields(vec![
        at(Accessor::Index(0)),
        at(Accessor::Index(1)),
        at(Accessor::Index(2)),
    ]);
    let expression = size_expression(&shape);
    let terms: Vec<String> = expression.terms.iter().map(|t| shown(&t.accessor)).collect();
    assert_eq!(terms, vec!["#0", "#1", "#2"]);
}

#[test]
fn size_expression_keeps_named_order() {
    let shape = FieldShape::NamedFields(vec![
        by_name("zeta"),
        by_name("alpha"),
    ]);
    let expression = size_expression(&shape);
    let terms: Vec<String> = expression.terms.iter().map(|t| shown(&t.accessor)).collect();
    assert_eq!(terms, vec!["zeta", "alpha"]);
}

#[test]
fn companion_has_the_two_fixed_fields() {
    let derived = synthesize(&named_type("SomeStruct"), &FieldShape::NoFields);
    assert_eq!(derived.artifact.derived_name, "SomeStructBson");
    assert_eq!(derived.artifact.fields.len(), 2);
    assert_eq!(derived.artifact.fields[0].name, "a");
    assert_eq!(derived.artifact.fields[0].ty, Scalar::Unsigned32);
    assert_eq!(derived.artifact.fields[1].name, "b");
    assert_eq!(derived.artifact.fields[1].ty, Scalar::Unsigned32);
    assert!(derived.artifact.serialization_capable);
}

#[test]
fn companion_is_named_in_any_script() {
    let derived = synthesize(&named_type("Größe"), &FieldShape::NoFields);
    assert_eq!(derived.artifact.derived_name, "GrößeBson");
    let derived = synthesize(&named_type("名前"), &FieldShape::NoFields);
    assert_eq!(derived.artifact.derived_name, "名前Bson");
}

#[test]
fn suffix_is_added_once_to_a_name_that_ends_in_it() {
    let derived = synthesize(&named_type("SomeBson"), &FieldShape::NoFields);
    assert_eq!(derived.artifact.derived_name, "SomeBsonBson");
}

#[test]
fn companion_does_not_depend_on_the_shape() {
    let name = named_type("Point");
    let none = synthesize(&name, &FieldShape::NoFields);
    let positional = synthesize(
        &name,
        &FieldShape::PositionalFields(vec![at(Accessor::Index(0)), at(Accessor::Index(1))]),
    );
    let named = synthesize(
        &name,
        &FieldShape::NamedFields(vec![
            by_name("x"),
            by_name("y"),
            by_name("z"),
        ]),
    );
    assert_eq!(none.artifact, companion_of("Point"));
    assert_eq!(positional.artifact, companion_of("Point"));
    assert_eq!(named.artifact, companion_of("Point"));
}

#[test]
fn marker_is_for_the_type_itself() {
    let derived = synthesize(&named_type("SomeStruct"), &FieldShape::NoFields);
    assert_eq!(derived.marker.target.ident.to_string(), "SomeStruct");
}

#[test]
fn synthesis_carries_the_size_expression_of_the_shape() {
    let shape = FieldShape::NamedFields(vec![
        by_name("x"),
        by_name("y"),
    ]);
    let derived = synthesize(&named_type("Point"), &shape);
    let terms: Vec<String> =
        derived.size_expression.terms.iter().map(|t| shown(&t.accessor)).collect();
    assert_eq!(terms, vec!["x", "y"]);
}
