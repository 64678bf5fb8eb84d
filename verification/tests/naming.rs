use ext_trait_gen::classify::{classify, TypeDescriptor};
use ext_trait_gen::diagnostics::Span;
use ext_trait_gen::names::synthesize_name;
use ext_trait_gen::syntax::TypeExpr;

fn span() -> Span {
    Span { start: 0, end: 0 }
}

fn path(name: &str) -> TypeDescriptor {
    TypeDescriptor::Path(String::from(name))
}

#[test]
fn name_synthesis_deterministic_on_equal_inputs() {
    let a = TypeDescriptor::Reference(Box::new(TypeDescriptor::Tuple(vec![
        path("I32"),
        path("Bool"),
    ])));
    let b = TypeDescriptor::Reference(Box::new(TypeDescriptor::Tuple(vec![
        path("I32"),
        path("Bool"),
    ])));
    assert_eq!(a, b);
    assert_eq!(synthesize_name(&a), synthesize_name(&b));
    assert_eq!(synthesize_name(&a), synthesize_name(&a));
}

#[test]
fn path_name_is_terminal_segment_with_ext() {
    assert_eq!(synthesize_name(&path("String")), "StringExt");
}

#[test]
fn empty_tuple_names_tuple_of() {
    let d = TypeDescriptor::Tuple(vec![]);
    assert_eq!(synthesize_name(&d), "TupleOfExt");
}

#[test]
fn tuple_pair_preserves_left_to_right_order() {
    let d = TypeDescriptor::Tuple(vec![path("I32"), path("Bool")]);
    let name = synthesize_name(&d);
    assert_eq!(name, "TupleOfI32BoolExt");
    assert_ne!(name, "TupleOfBoolI32Ext");
}

#[test]
fn wrapper_prefixes_compose() {
    assert_eq!(
        synthesize_name(&TypeDescriptor::Reference(Box::new(path("T")))),
        "RefTExt"
    );
    assert_eq!(
        synthesize_name(&TypeDescriptor::Pointer(Box::new(path("T")))),
        "PointerToTExt"
    );
    assert_eq!(
        synthesize_name(&TypeDescriptor::Array(Box::new(path("T")))),
        "ListOfTExt"
    );
    assert_eq!(
        synthesize_name(&TypeDescriptor::Slice(Box::new(path("T")))),
        "SliceOfTExt"
    );
    assert_eq!(
        synthesize_name(&TypeDescriptor::Paren(Box::new(path("T")))),
        "ParenTExt"
    );
    assert_eq!(
        synthesize_name(&TypeDescriptor::Group(Box::new(path("T")))),
        "GroupTExt"
    );
    assert_eq!(synthesize_name(&TypeDescriptor::Never), "NeverExt");
}

#[test]
fn deeply_nested_wrappers_compose_without_a_cap() {
    let d = TypeDescriptor::Reference(Box::new(TypeDescriptor::Slice(Box::new(
        TypeDescriptor::Tuple(vec![
            path("U8"),
            TypeDescriptor::Array(Box::new(path("Str"))),
        ]),
    ))));
    assert_eq!(synthesize_name(&d), "RefSliceOfTupleOfU8ListOfStrExt");
}

#[test]
fn classification_idempotent() {
    let t = TypeExpr::Reference(
        span(),
        Box::new(TypeExpr::Tuple(
            span(),
            vec![
                TypeExpr::Path(span(), vec![String::from("std"), String::from("i32")]),
                TypeExpr::Never(span()),
            ],
        )),
    );
    let first = classify(&t);
    let second = classify(&t);
    assert_eq!(first, second);
    let descriptor = first.unwrap();
    assert_eq!(
        descriptor,
        TypeDescriptor::Reference(Box::new(TypeDescriptor::Tuple(vec![
            TypeDescriptor::Path(String::from("i32")),
            TypeDescriptor::Never,
        ])))
    );
}

#[test]
fn classify_reduces_path_to_terminal_segment() {
    let t = TypeExpr::Path(
        span(),
        vec![
            String::from("core"),
            String::from("option"),
            String::from("Option"),
        ],
    );
    assert_eq!(classify(&t), Ok(TypeDescriptor::Path(String::from("Option"))));
}
