use ext_trait_gen::config::{
    parse_config, ConfigItem, Configuration, DirectiveValue, Visibility,
};
use ext_trait_gen::diagnostics::{ErrorKind, Span};
use ext_trait_gen::emit::{run, transform, TransformationRequest};
use ext_trait_gen::syntax::{
    Generics, ImplBlock, Member, MethodDef, MethodSig, Receiver, TypeExpr,
};

fn span() -> Span {
    Span { start: 0, end: 0 }
}

fn no_generics() -> Generics {
    Generics { params: vec![], where_clause: vec![] }
}

fn len_method() -> Member {
    Member::Method(MethodDef {
        span: span(),
        attributes: vec![],
        signature: MethodSig {
            name: String::from("len"),
            generics: vec![],
            receiver: Receiver::Value,
            params: vec![],
            return_type: Some(String::from("usize")),
        },
        body: String::from("{ self.iter().count() }"),
    })
}

fn ref_slice_of_t() -> TypeExpr {
    TypeExpr::Reference(
        span(),
        Box::new(TypeExpr::Slice(
            span(),
            Box::new(TypeExpr::Path(span(), vec![String::from("T")])),
        )),
    )
}

fn block_with(target: TypeExpr, members: Vec<Member>) -> ImplBlock {
    ImplBlock {
        span: span(),
        attributes: vec![],
        generics: no_generics(),
        target_type: target,
        members,
        is_trait_impl: false,
    }
}

fn default_config() -> Configuration {
    parse_config(&vec![]).unwrap()
}

#[test]
fn empty_directive_list_yields_defaults() {
    let c = default_config();
    assert_eq!(c.visibility, Visibility::Private);
    assert_eq!(c.trait_name_override, None);
    assert!(c.sealed);
    assert!(c.extra_supertraits.is_empty());
}

#[test]
fn directives_parse_in_any_order() {
    let items = vec![
        ConfigItem::VisibilityItem(span(), Visibility::Public),
        ConfigItem::Directive(
            span(),
            String::from("supertraits"),
            DirectiveValue::BoundsValue(vec![String::from("Clone"), String::from("Send")]),
        ),
        ConfigItem::Directive(span(), String::from("sealed"), DirectiveValue::BoolValue(false)),
        ConfigItem::Directive(
            span(),
            String::from("name"),
            DirectiveValue::IdentValue(String::from("Widget")),
        ),
    ];
    let c = parse_config(&items).unwrap();
    assert_eq!(c.visibility, Visibility::Public);
    assert_eq!(c.trait_name_override, Some(String::from("Widget")));
    assert!(!c.sealed);
    assert_eq!(
        c.extra_supertraits,
        vec![String::from("Clone"), String::from("Send")]
    );
}

#[test]
fn repeated_directive_resolves_last_write_wins() {
    let items = vec![
        ConfigItem::Directive(span(), String::from("sealed"), DirectiveValue::BoolValue(true)),
        ConfigItem::Directive(span(), String::from("sealed"), DirectiveValue::BoolValue(false)),
    ];
    let c = parse_config(&items).unwrap();
    assert!(!c.sealed);
}

#[test]
fn unknown_directive_rejected() {
    let items = vec![ConfigItem::Directive(
        span(),
        String::from("foo"),
        DirectiveValue::BoolValue(true),
    )];
    let e = parse_config(&items).unwrap_err();
    assert_eq!(e.kind, ErrorKind::ConfigurationError);
    assert_eq!(e.message, "unknown directive: foo");
}

#[test]
fn malformed_directive_value_rejected() {
    let items = vec![ConfigItem::Directive(
        span(),
        String::from("name"),
        DirectiveValue::BoolValue(true),
    )];
    let e = parse_config(&items).unwrap_err();
    assert_eq!(e.kind, ErrorKind::ConfigurationError);
    assert_eq!(e.message, "malformed value for directive: name");
}

#[test]
fn visibility_after_a_directive_rejected() {
    let items = vec![
        ConfigItem::Directive(span(), String::from("sealed"), DirectiveValue::BoolValue(true)),
        ConfigItem::VisibilityItem(span(), Visibility::Public),
    ];
    let e = parse_config(&items).unwrap_err();
    assert_eq!(e.kind, ErrorKind::ConfigurationError);
}

#[test]
fn trait_impl_block_rejected() {
    let mut block = block_with(ref_slice_of_t(), vec![len_method()]);
    block.is_trait_impl = true;
    let e = transform(TransformationRequest { config: default_config(), block }).unwrap_err();
    assert_eq!(e.kind, ErrorKind::UnsupportedTraitImplError);
}

#[test]
fn function_pointer_target_rejected() {
    let block = block_with(TypeExpr::BareFn(span()), vec![len_method()]);
    let e = transform(TransformationRequest { config: default_config(), block }).unwrap_err();
    assert_eq!(e.kind, ErrorKind::UnsupportedTargetError);
    assert_eq!(e.message, "unsupported impl target: function pointer type");
}

#[test]
fn opaque_target_rejected() {
    let block = block_with(TypeExpr::ImplTrait(span()), vec![]);
    let e = transform(TransformationRequest { config: default_config(), block }).unwrap_err();
    assert_eq!(e.kind, ErrorKind::UnsupportedTargetError);
    assert_eq!(e.message, "unsupported impl target: opaque type");
}

#[test]
fn nested_unsupported_target_rejected() {
    let block = block_with(
        TypeExpr::Reference(span(), Box::new(TypeExpr::TraitObject(span()))),
        vec![],
    );
    let e = transform(TransformationRequest { config: default_config(), block }).unwrap_err();
    assert_eq!(e.kind, ErrorKind::UnsupportedTargetError);
    assert_eq!(e.message, "unsupported impl target: trait object type");
}

#[test]
fn empty_path_target_rejected() {
    let block = block_with(TypeExpr::Path(span(), vec![]), vec![]);
    let e = transform(TransformationRequest { config: default_config(), block }).unwrap_err();
    assert_eq!(e.kind, ErrorKind::EmptyPathError);
}

#[test]
fn non_method_member_rejected() {
    let block = block_with(
        ref_slice_of_t(),
        vec![
            len_method(),
            Member::AssociatedConst(span(), String::from("LIMIT")),
        ],
    );
    let e = transform(TransformationRequest { config: default_config(), block }).unwrap_err();
    assert_eq!(e.kind, ErrorKind::UnsupportedMemberError);
    assert_eq!(e.message, "unsupported non-method member: LIMIT");
}

#[test]
fn override_wins_regardless_of_target_shape() {
    let items = vec![ConfigItem::Directive(
        span(),
        String::from("name"),
        DirectiveValue::IdentValue(String::from("Widget")),
    )];
    let a = run(&items, block_with(ref_slice_of_t(), vec![len_method()])).unwrap();
    assert_eq!(a.declaration.name, "Widget");
    assert_eq!(a.implementation.trait_name, "Widget");

    let b = run(&items, block_with(TypeExpr::Never(span()), vec![])).unwrap();
    assert_eq!(b.declaration.name, "Widget");
}

#[test]
fn sealed_by_default_injects_marker_bound_and_module() {
    let a = run(&vec![], block_with(ref_slice_of_t(), vec![len_method()])).unwrap();
    assert_eq!(a.declaration.supertraits.len(), 1);
    assert_eq!(a.declaration.supertraits[0], "sealed_RefSliceOfTExt::Sealed");
    let sealing = a.sealing.expect("sealing module must be emitted when sealed");
    assert_eq!(sealing.name, "sealed_RefSliceOfTExt");
    assert_eq!(sealing.marker_name, "Sealed");
    assert_eq!(sealing.target_type, ref_slice_of_t());
}

#[test]
fn unsealed_omits_marker_bound_and_module() {
    let items = vec![
        ConfigItem::Directive(span(), String::from("sealed"), DirectiveValue::BoolValue(false)),
        ConfigItem::Directive(
            span(),
            String::from("supertraits"),
            DirectiveValue::BoundsValue(vec![String::from("Clone")]),
        ),
    ];
    let a = run(&items, block_with(ref_slice_of_t(), vec![len_method()])).unwrap();
    assert_eq!(a.declaration.supertraits, vec![String::from("Clone")]);
    assert!(a.sealing.is_none());
}

#[test]
fn sealing_marker_precedes_extra_supertraits() {
    let items = vec![ConfigItem::Directive(
        span(),
        String::from("supertraits"),
        DirectiveValue::BoundsValue(vec![String::from("Clone"), String::from("Send")]),
    )];
    let a = run(&items, block_with(TypeExpr::Never(span()), vec![])).unwrap();
    assert_eq!(
        a.declaration.supertraits,
        vec![
            String::from("sealed_NeverExt::Sealed"),
            String::from("Clone"),
            String::from("Send"),
        ]
    );
}

#[test]
fn method_bodies_erased_in_declaration_kept_in_implementation() {
    let members = vec![len_method(), len_method_named("first")];
    let a = run(&vec![], block_with(ref_slice_of_t(), members.clone())).unwrap();
    assert_eq!(a.declaration.items.len(), 2);
    for (item, member) in a.declaration.items.iter().zip(members.iter()) {
        match member {
            Member::Method(m) => {
                assert_eq!(item.signature, m.signature);
                assert_eq!(item.attributes, m.attributes);
                assert!(item.lints_suppressed);
            }
            _ => unreachable!(),
        }
    }
    assert_eq!(a.implementation.members, members);
}

fn len_method_named(name: &str) -> Member {
    match len_method() {
        Member::Method(mut m) => {
            m.signature.name = String::from(name);
            m.attributes = vec![String::from("#[inline]")];
            Member::Method(m)
        }
        other => other,
    }
}

#[test]
fn end_to_end_ref_slice_of_named_path() {
    let a = run(&vec![], block_with(ref_slice_of_t(), vec![len_method()])).unwrap();
    assert_eq!(a.declaration.name, "RefSliceOfTExt");
    assert_eq!(a.declaration.visibility, Visibility::Private);
    assert_eq!(a.declaration.supertraits[0], "sealed_RefSliceOfTExt::Sealed");
    assert_eq!(a.declaration.items.len(), 1);
    assert_eq!(a.declaration.items[0].signature.name, "len");
    let sealing = a.sealing.expect("defaults are sealed");
    assert_eq!(sealing.name, "sealed_RefSliceOfTExt");
    assert_eq!(sealing.target_type, ref_slice_of_t());
    assert_eq!(a.implementation.trait_name, "RefSliceOfTExt");
    assert_eq!(a.implementation.target_type, ref_slice_of_t());
    assert_eq!(a.implementation.members, vec![len_method()]);
}

#[test]
fn visibility_propagates_to_declaration() {
    let items = vec![ConfigItem::VisibilityItem(
        span(),
        Visibility::Scoped(String::from("crate::api")),
    )];
    let a = run(&items, block_with(TypeExpr::Never(span()), vec![])).unwrap();
    assert_eq!(
        a.declaration.visibility,
        Visibility::Scoped(String::from("crate::api"))
    );
}

#[test]
fn generics_thread_through_all_artifacts() {
    let generics = Generics {
        params: vec![String::from("T: Copy")],
        where_clause: vec![String::from("T: Send")],
    };
    let mut block = block_with(ref_slice_of_t(), vec![len_method()]);
    block.generics = generics.clone();
    let a = transform(TransformationRequest { config: default_config(), block }).unwrap();
    assert_eq!(a.declaration.generics, generics);
    assert_eq!(a.implementation.generics, generics);
    assert_eq!(a.sealing.unwrap().generics, generics);
}

#[test]
fn block_attributes_pass_through_to_declaration() {
    let mut block = block_with(TypeExpr::Never(span()), vec![]);
    block.attributes = vec![String::from("#[allow(dead_code)]")];
    let a = transform(TransformationRequest { config: default_config(), block }).unwrap();
    assert_eq!(a.declaration.attributes, vec![String::from("#[allow(dead_code)]")]);
}

#[test]
fn unrecognized_target_shape_rejected() {
    let block = block_with(TypeExpr::Other(span()), vec![]);
    let e = transform(TransformationRequest { config: default_config(), block }).unwrap_err();
    assert_eq!(e.kind, ErrorKind::UnsupportedTargetError);
    assert_eq!(e.message, "unsupported impl target: unrecognized type");
}

#[test]
fn run_aborts_on_configuration_error_before_classification() {
    let items = vec![ConfigItem::Directive(
        span(),
        String::from("foo"),
        DirectiveValue::IdentValue(String::from("x")),
    )];
    // The target would also be rejected, but the configuration error
    // comes first.
    let e = run(&items, block_with(TypeExpr::BareFn(span()), vec![])).unwrap_err();
    assert_eq!(e.kind, ErrorKind::ConfigurationError);
    assert_eq!(e.message, "unknown directive: foo");
}

#[test]
fn rejection_order_trait_impl_before_target() {
    let mut block = block_with(TypeExpr::BareFn(span()), vec![]);
    block.is_trait_impl = true;
    let e = transform(TransformationRequest { config: default_config(), block }).unwrap_err();
    assert_eq!(e.kind, ErrorKind::UnsupportedTraitImplError);
}

#[test]
fn rejection_order_target_before_members() {
    let block = block_with(
        TypeExpr::MacroType(span()),
        vec![Member::AssociatedType(span(), String::from("Item"))],
    );
    let e = transform(TransformationRequest { config: default_config(), block }).unwrap_err();
    assert_eq!(e.kind, ErrorKind::UnsupportedTargetError);
}
