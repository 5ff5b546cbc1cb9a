use proc_macro2::{Span, TokenStream, TokenTree};
use syn::spanned::Spanned;
use syn::{Data, DeriveInput};
use type_duplicate_derive::generate::{duplicate_type_derive, fields, impl_duplicate_type_macro};
use type_duplicate_derive::shape::{Body, GenerateError};
use type_duplicate_derive::syntax::read_definition;

fn parse(text: &str) -> DeriveInput {
    syn::parse_str::<DeriveInput>(text).unwrap()
}

fn source(text: &str) -> String {
    text.parse::<TokenStream>().unwrap().to_string()
}

fn place(span: Span) -> String {
    format!("{span:?}")
}

fn field_spans(input: &DeriveInput) -> Vec<Span> {
    match &input.data {
        Data::Struct(item) => item.fields.iter().map(|f| f.span()).collect(),
        _ => Vec::new(),
    }
}

#[test]
fn reads_a_unit_struct() {
    let definition = read_definition(&parse("pub struct SomeStruct;"));
    assert_eq!(definition.name.ident.to_string(), "SomeStruct");
    assert!(matches!(definition.body, Body::Unit));
}

#[test]
fn reads_the_span_of_the_name() {
    let input = parse("pub struct SomeStruct;");
    let definition = read_definition(&input);
    assert_eq!(place(definition.name.ident.span()), place(input.ident.span()));
    assert_ne!(place(definition.name.ident.span()), place(Span::call_site()));
}

#[test]
fn reads_a_tuple_struct() {
    let input = parse("struct Pair(u32, Vec<u8>);");
    let definition = read_definition(&input);
    assert_eq!(definition.name.ident.to_string(), "Pair");
    match definition.body {
        Body::Tuple(fields) => {
            assert_eq!(fields.len(), 2);
            assert!(fields.iter().all(|f| f.name.is_none()));
            let spans: Vec<String> = fields.iter().map(|f| place(f.span)).collect();
            let expected: Vec<String> = field_spans(&input).into_iter().map(place).collect();
            assert_eq!(spans, expected);
            assert_ne!(spans[0], spans[1]);
        }
        other => panic!("not a tuple struct: {other:?}"),
    }
}

#[test]
fn reads_a_record_struct() {
    let input = parse("struct Point { x: u32, pub y: String, z: Vec<Point> }");
    let definition = read_definition(&input);
    match definition.body {
        Body::Record(fields) => {
            let names: Vec<Option<String>> =
                fields.iter().map(|f| f.name.as_ref().map(|n| n.to_string())).collect();
            assert_eq!(
                names,
                vec![Some("x".to_string()), Some("y".to_string()), Some("z".to_string())]
            );
            let spans: Vec<String> = fields.iter().map(|f| place(f.span)).collect();
            let expected: Vec<String> = field_spans(&input).into_iter().map(place).collect();
            assert_eq!(spans, expected);
        }
        other => panic!("not a record struct: {other:?}"),
    }
}

#[test]
fn reads_empty_structs_by_their_form() {
    assert!(matches!(read_definition(&parse("struct A {}")).body, Body::Record(f) if f.is_empty()));
    assert!(matches!(read_definition(&parse("struct B();")).body, Body::Tuple(f) if f.is_empty()));
}

#[test]
fn reads_enum_and_union() {
    assert!(matches!(read_definition(&parse("enum Choice { Left, Right(u8) }")).body, Body::Enum));
    assert!(matches!(
        read_definition(&parse("union Overlay { whole: u32, part: u8 }")).body,
        Body::Union
    ));
}

#[test]
fn fields_of_a_unit_struct() {
    let input = parse("struct SomeStruct;");
    assert_eq!(fields(&input.data).unwrap().to_string(), "0");
}

#[test]
fn fields_of_empty_structs() {
    assert_eq!(fields(&parse("struct A {}").data).unwrap().to_string(), "0");
    assert_eq!(fields(&parse("struct B();").data).unwrap().to_string(), "0");
}

#[test]
fn fields_of_a_record_struct() {
    let input = parse("struct Point { x: u32, y: String, z: Vec<Point> }");
    assert_eq!(
        fields(&input.data).unwrap().to_string(),
        source(
            "0 + heapsize::HeapSize::heap_size_of_children(&self.x) \
             + heapsize::HeapSize::heap_size_of_children(&self.y) \
             + heapsize::HeapSize::heap_size_of_children(&self.z)"
        )
    );
}

#[test]
fn fields_of_a_tuple_struct() {
    let input = parse("struct Pair(u32, Vec<u8>);");
    assert_eq!(
        fields(&input.data).unwrap().to_string(),
        source(
            "0 + heapsize::HeapSize::heap_size_of_children(&self.0) \
             + heapsize::HeapSize::heap_size_of_children(&self.1)"
        )
    );
}

#[test]
fn fields_attributes_each_call_to_its_field() {
    let input = parse("struct Point { x: u32, second: String }");
    let spans = field_spans(&input);
    let trees: Vec<TokenTree> = fields(&input.data).unwrap().into_iter().collect();
    assert_eq!(trees.len(), 19);
    assert_eq!(place(trees[0].span()), place(Span::call_site()));
    for (position, span) in spans.iter().enumerate() {
        let start = 1 + 9 * position;
        assert_eq!(place(trees[start].span()), place(Span::call_site()));
        for tree in &trees[start + 1..start + 9] {
            assert_eq!(place(tree.span()), place(*span), "{tree}");
        }
    }
    assert_ne!(place(spans[0]), place(spans[1]));
}

#[test]
fn fields_of_enum_and_union_are_refused() {
    let outcome = fields(&parse("enum Choice { Left, Right }").data);
    assert_eq!(outcome.unwrap_err(), GenerateError::UnsupportedShape);
    let outcome = fields(&parse("union Overlay { whole: u32, part: u8 }").data);
    assert_eq!(outcome.unwrap_err(), GenerateError::UnsupportedShape);
}

#[test]
fn fields_with_raw_and_foreign_names() {
    let input = parse("struct Keyword { r#type: u32, größe: u64 }");
    assert_eq!(
        fields(&input.data).unwrap().to_string(),
        source(
            "0 + heapsize::HeapSize::heap_size_of_children(&self.r#type) \
             + heapsize::HeapSize::heap_size_of_children(&self.größe)"
        )
    );
}

#[test]
fn fields_keep_the_span_of_each_name() {
    let input = parse("struct Point { x: u32, second: String }");
    let names: Vec<Span> = match &input.data {
        Data::Struct(item) => item.fields.iter().map(|f| f.ident.as_ref().unwrap().span()).collect(),
        _ => Vec::new(),
    };
    let trees: Vec<TokenTree> = fields(&input.data).unwrap().into_iter().collect();
    for (position, name) in names.iter().enumerate() {
        match &trees[9 + 9 * position] {
            TokenTree::Group(group) => {
                let inner: Vec<TokenTree> = group.stream().into_iter().collect();
                assert_eq!(inner.len(), 4);
                assert_eq!(place(inner[3].span()), place(*name));
                assert_eq!(place(inner[0].span()), place(group.span()));
            }
            other => panic!("not a group: {other}"),
        }
    }
}

#[test]
fn macro_output_for_a_record_struct() {
    let input = parse("pub struct Point { x: u32, y: u32 }");
    let expansion = impl_duplicate_type_macro(&input).unwrap();
    assert_eq!(
        expansion.definitions.to_string(),
        source(
            "#[derive(Debug, serde::Serialize, serde::Deserialize)] \
             pub struct PointBson { a: u32, b: u32, } \
             impl duplicate::DuplicateMarker for Point {};"
        )
    );
    assert_eq!(
        expansion.size_expression.to_string(),
        source(
            "0 + heapsize::HeapSize::heap_size_of_children(&self.x) \
             + heapsize::HeapSize::heap_size_of_children(&self.y)"
        )
    );
}

#[test]
fn macro_output_names_the_type_at_its_own_place() {
    let input = parse("pub struct SomeStruct;");
    let expansion = impl_duplicate_type_macro(&input).unwrap();
    let trees: Vec<TokenTree> = expansion.definitions.into_iter().collect();
    let itself = trees.iter().find(|t| t.to_string() == "SomeStruct").unwrap();
    let companion = trees.iter().find(|t| t.to_string() == "SomeStructBson").unwrap();
    assert_eq!(place(itself.span()), place(input.ident.span()));
    assert_eq!(place(companion.span()), place(Span::call_site()));
}

#[test]
fn macro_output_is_the_same_for_every_struct_form() {
    let unit = impl_duplicate_type_macro(&parse("struct Same;")).unwrap();
    let tuple = impl_duplicate_type_macro(&parse("struct Same(u8, u16, u32);")).unwrap();
    let record = impl_duplicate_type_macro(&parse("struct Same { only: bool }")).unwrap();
    assert_eq!(unit.definitions.to_string(), tuple.definitions.to_string());
    assert_eq!(unit.definitions.to_string(), record.definitions.to_string());
}

#[test]
fn macro_refuses_an_enum() {
    let outcome = impl_duplicate_type_macro(&parse("enum Choice { Left, Right }"));
    assert_eq!(outcome.unwrap_err(), GenerateError::UnsupportedShape);
}

#[test]
fn macro_refuses_a_union() {
    let outcome = impl_duplicate_type_macro(&parse("union Overlay { whole: u32, part: u8 }"));
    assert_eq!(outcome.unwrap_err(), GenerateError::UnsupportedShape);
}

#[test]
fn macro_refuses_a_raw_type_name() {
    let outcome = impl_duplicate_type_macro(&parse("struct r#type;"));
    assert_eq!(outcome.unwrap_err(), GenerateError::InvalidIdentifier);
}

#[test]
fn derive_gives_the_definitions_alone() {
    let input: TokenStream = "pub struct Point { x: u32, y: u32 }".parse().unwrap();
    let output = duplicate_type_derive(input).unwrap();
    assert_eq!(
        output.to_string(),
        source(
            "#[derive(Debug, serde::Serialize, serde::Deserialize)] \
             pub struct PointBson { a: u32, b: u32, } \
             impl duplicate::DuplicateMarker for Point {};"
        )
    );
}

#[test]
fn derive_gives_what_the_macro_defines() {
    for text in ["struct Unit;", "struct Pair(u8, u16);", "pub struct Named { only: bool }"] {
        let output = duplicate_type_derive(text.parse().unwrap()).unwrap();
        let expected = impl_duplicate_type_macro(&parse(text)).unwrap().definitions;
        assert_eq!(output.to_string(), expected.to_string(), "{text}");
    }
}

#[test]
fn derive_reports_what_is_no_definition_as_a_compile_error() {
    for text in ["fn not_a_type() {}", "struct", "struct Twice; struct Twice;", ""] {
        let output = duplicate_type_derive(text.parse().unwrap()).unwrap();
        let shown = output.to_string();
        assert!(shown.contains("compile_error"), "{text:?} gave {shown}");
        assert!(!shown.contains("Bson"), "{text:?} gave {shown}");
    }
}

#[test]
fn derive_refuses_enum_and_union() {
    let outcome = duplicate_type_derive("enum Choice { Left, Right }".parse().unwrap());
    assert_eq!(outcome.unwrap_err(), GenerateError::UnsupportedShape);
    let outcome = duplicate_type_derive("union Overlay { whole: u32, part: u8 }".parse().unwrap());
    assert_eq!(outcome.unwrap_err(), GenerateError::UnsupportedShape);
}

#[test]
fn derive_takes_a_type_name_in_another_script() {
    let output = duplicate_type_derive("struct Größe { wert: u8 }".parse().unwrap()).unwrap();
    assert_eq!(
        output.to_string(),
        source(
            "#[derive(Debug, serde::Serialize, serde::Deserialize)] \
             pub struct GrößeBson { a: u32, b: u32, } \
             impl duplicate::DuplicateMarker for Größe {};"
        )
    );
    let expansion = impl_duplicate_type_macro(&parse("struct 名前;")).unwrap();
    let trees: Vec<TokenTree> = expansion.definitions.into_iter().collect();
    assert_eq!(trees[4].to_string(), "名前Bson");
}

#[test]
fn derive_gives_the_same_tokens_for_the_same_stream() {
    for text in ["struct Point { x: u32 }", "fn not_a_type() {}", "struct"] {
        let first = duplicate_type_derive(text.parse().unwrap()).unwrap();
        let other = duplicate_type_derive("struct Between(u8);".parse().unwrap()).unwrap();
        let second = duplicate_type_derive(text.parse().unwrap()).unwrap();
        assert_eq!(first.to_string(), second.to_string(), "{text}");
        assert_ne!(first.to_string(), other.to_string(), "{text}");
    }
}

#[test]
fn derive_reports_the_message_of_the_parser() {
    let text = "fn not_a_type() {}";
    let error = match syn::parse_str::<DeriveInput>(text) {
        Ok(_) => panic!("parsed as a definition"),
        Err(error) => error,
    };
    let output = duplicate_type_derive(text.parse().unwrap()).unwrap();
    assert_eq!(output.to_string(), error.to_compile_error().to_string());
    assert!(output.to_string().contains("expected one of"));
}

#[test]
fn derive_refuses_a_raw_type_name() {
    let outcome = duplicate_type_derive("struct r#type;".parse().unwrap());
    assert_eq!(outcome.unwrap_err(), GenerateError::InvalidIdentifier);
}
