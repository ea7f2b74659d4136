// Tests of the derivation engine: directive parsing, legality checking, the
// type-reference rewriter, the transformers, and the emitted artifacts.

use redefined::decl::{DataShape, FieldDef, GenericParam, StructData, EnumData, TypeDeclaration,
    VariantDef, VariantFields};
use redefined::derive::expand_derive_redefined;
use redefined::enums::{EnumContainer, EnumField, VariantShape};
use redefined::errors::{DeriveError, UnsupportedKind};
use redefined::primitives::{is_simple_primitive, Primitive};
use redefined::structs::{StructContainer, StructField};
use redefined::symbol::{Symbol, SymbolMeta};
use redefined::text::usize_to_string;
use redefined::type_attr::{AttrToken, ContainerAttributes, TypeAttribute};
use redefined::type_expr::{parse_type_to_redefined, render_type, TypeExpr, TypeMapEntry};

fn ident(s: &str) -> AttrToken {
    AttrToken::Ident(s.to_string())
}

fn named(s: &str) -> TypeExpr {
    TypeExpr::Named { name: s.to_string() }
}

#[test]
fn primitives_table() {
    assert!(is_simple_primitive("u64"));
    assert!(is_simple_primitive("String"));
    assert!(is_simple_primitive("bool"));
    assert!(!is_simple_primitive("Vec"));
    assert!(!is_simple_primitive("MyType"));
    assert!(Primitive::is_primitive("Vec"));
    assert!(!Primitive::is_primitive("VecDeque"));
}

#[test]
fn decimal_rendering() {
    assert_eq!(usize_to_string(0), "0");
    assert_eq!(usize_to_string(7), "7");
    assert_eq!(usize_to_string(120), "120");
}

#[test]
fn symbol_vocabulary() {
    let sym = Symbol::lookup("to_source").unwrap();
    assert_eq!(sym.s, "to_source");
    assert!(sym.is_container);
    assert_eq!(sym.meta, SymbolMeta::NameValue);
    let sym = Symbol::lookup("field").unwrap();
    assert!(!sym.is_container);
    assert_eq!(sym.meta, SymbolMeta::List);
    assert!(Symbol::lookup("no_such_directive").is_none());
}

#[test]
fn illegal_pairings_aggregates_conflicts() {
    let symbols = vec![
        Symbol::lookup("transmute").unwrap(),
        Symbol::lookup("to_source").unwrap(),
        Symbol::lookup("derive").unwrap(),
        Symbol::lookup("from_source").unwrap(),
    ];
    match Symbol::illegal_pairings(&symbols, true) {
        Err(DeriveError::IllegalDirectiveCombination { conflicting }) => {
            assert_eq!(conflicting, vec!["to_source".to_string(), "from_source".to_string()]);
        }
        other => panic!("expected an aggregated conflict, got {:?}", other.is_ok()),
    }
}

#[test]
fn override_without_source_is_rejected() {
    let symbols = vec![Symbol::lookup("to_source").unwrap()];
    match Symbol::illegal_pairings(&symbols, false) {
        Err(DeriveError::MissingLinkedSource) => {}
        _ => panic!("expected a missing-linked-source failure"),
    }
    assert!(Symbol::illegal_pairings(&symbols, true).is_ok());
}

#[test]
fn transmute_with_derives_is_legal() {
    let symbols = vec![Symbol::lookup("transmute").unwrap(), Symbol::lookup("derive").unwrap()];
    assert!(Symbol::illegal_pairings(&symbols, true).is_ok());
}

#[test]
fn directive_parsing_shapes() {
    // A bare marker.
    let toks = vec![ident("transmute")];
    let attrs = ContainerAttributes::parse(&toks).unwrap().0;
    assert_eq!(attrs.len(), 1);
    assert_eq!(attrs[0].symbol.s, "transmute");

    // A name-value directive.
    let toks = vec![ident("to_source"), AttrToken::Eq, AttrToken::LitStr("A::new(self.p)".to_string())];
    let attrs = ContainerAttributes::parse(&toks).unwrap().0;
    assert_eq!(attrs[0].nv_tokens.as_deref(), Some("A::new(self.p)"));

    // A list directive.
    let toks = vec![
        ident("derive"),
        AttrToken::OpenParen,
        ident("Debug"),
        AttrToken::Comma,
        ident("Clone"),
        AttrToken::CloseParen,
    ];
    let attrs = ContainerAttributes::parse(&toks).unwrap().0;
    assert_eq!(attrs[0].list_idents, Some(vec!["Debug".to_string(), "Clone".to_string()]));

    // A tuple-list directive with the sentinel.
    let toks = vec![
        ident("field"),
        AttrToken::OpenParen,
        AttrToken::OpenParen,
        ident("A"),
        AttrToken::Comma,
        ident("B"),
        AttrToken::CloseParen,
        AttrToken::Comma,
        AttrToken::OpenParen,
        ident("C"),
        AttrToken::Comma,
        ident("same"),
        AttrToken::CloseParen,
        AttrToken::CloseParen,
    ];
    let attrs = ContainerAttributes::parse(&toks).unwrap().0;
    assert_eq!(
        attrs[0].list_tuple_idents,
        Some(vec![
            ("A".to_string(), "B".to_string()),
            ("C".to_string(), "same".to_string()),
        ])
    );

    // Two directives separated by a comma.
    let toks = vec![
        ident("transmute"),
        AttrToken::Comma,
        ident("derive"),
        AttrToken::OpenParen,
        ident("Debug"),
        AttrToken::CloseParen,
    ];
    let attrs = ContainerAttributes::parse(&toks).unwrap().0;
    assert_eq!(attrs.len(), 2);
}

#[test]
fn unknown_directive_is_a_hard_failure() {
    let toks = vec![ident("transmogrify")];
    match ContainerAttributes::parse(&toks) {
        Err(DeriveError::DirectiveSyntax { directive, .. }) => {
            assert_eq!(directive, "transmogrify");
        }
        _ => panic!("expected a directive-syntax failure"),
    }
}

#[test]
fn empty_override_expression_is_malformed() {
    let toks = vec![ident("func"), AttrToken::Eq, AttrToken::LitStr(String::new())];
    match ContainerAttributes::parse(&toks) {
        Err(DeriveError::MalformedOverrideExpression { directive }) => {
            assert_eq!(directive, "func");
        }
        _ => panic!("expected a malformed-override failure"),
    }
}

#[test]
fn rewriter_suffixes_plain_identifiers() {
    let overrides: Vec<TypeMapEntry> = Vec::new();
    let skip: Vec<String> = Vec::new();
    let r = parse_type_to_redefined(&named("BasicStruct"), &overrides, &skip, true).unwrap();
    assert_eq!(r, named("BasicStructRedefined"));
}

#[test]
fn rewriter_keeps_primitives_and_generic_parameters() {
    let overrides: Vec<TypeMapEntry> = Vec::new();
    let skip = vec!["X".to_string()];
    let r = parse_type_to_redefined(&named("u64"), &overrides, &skip, true).unwrap();
    assert_eq!(r, named("u64"));
    let r = parse_type_to_redefined(&named("X"), &overrides, &skip, true).unwrap();
    assert_eq!(r, named("X"));
}

#[test]
fn rewriter_honours_overrides_and_sentinel() {
    let overrides = vec![
        TypeMapEntry { source: "A".to_string(), target: "CustomB".to_string() },
        TypeMapEntry { source: "C".to_string(), target: "same".to_string() },
    ];
    let skip: Vec<String> = Vec::new();
    let r = parse_type_to_redefined(&named("A"), &overrides, &skip, true).unwrap();
    assert_eq!(r, named("CustomB"));
    let r = parse_type_to_redefined(&named("C"), &overrides, &skip, true).unwrap();
    assert_eq!(r, named("C"));
}

#[test]
fn rewriter_descends_into_containers() {
    let overrides: Vec<TypeMapEntry> = Vec::new();
    let skip: Vec<String> = Vec::new();
    let ty = TypeExpr::GenericApplication {
        name: "Vec".to_string(),
        args: vec![TypeExpr::Tuple {
            elems: vec![named("Inner"), named("u64")],
        }],
    };
    let r = parse_type_to_redefined(&ty, &overrides, &skip, true).unwrap();
    assert_eq!(render_type(&r), "Vec<(InnerRedefined, u64, ), >");
}

#[test]
fn rewriter_is_idempotent_on_rewritten_names() {
    let overrides: Vec<TypeMapEntry> = Vec::new();
    let skip: Vec<String> = Vec::new();
    let once = parse_type_to_redefined(&named("Inner"), &overrides, &skip, true).unwrap();
    let twice = parse_type_to_redefined(&once, &overrides, &skip, true).unwrap();
    assert_eq!(once, twice);
}

#[test]
fn rewriter_with_disabled_policy_keeps_identifiers() {
    let overrides: Vec<TypeMapEntry> = Vec::new();
    let skip: Vec<String> = Vec::new();
    let r = parse_type_to_redefined(&named("Inner"), &overrides, &skip, false).unwrap();
    assert_eq!(r, named("Inner"));
}

#[test]
fn rewriter_refuses_unsupported_shapes() {
    let overrides: Vec<TypeMapEntry> = Vec::new();
    let skip: Vec<String> = Vec::new();
    let ty = TypeExpr::Tuple {
        elems: vec![named("A"), TypeExpr::Unsupported { kind: UnsupportedKind::RawPointer }],
    };
    match parse_type_to_redefined(&ty, &overrides, &skip, true) {
        Err(DeriveError::UnsupportedFieldType { kind }) => {
            assert_eq!(kind, UnsupportedKind::RawPointer);
        }
        _ => panic!("expected an unsupported-field-type failure"),
    }
}

fn plain_field(name: &str, ty: TypeExpr) -> FieldDef {
    FieldDef {
        ident: Some(name.to_string()),
        vis: Some("pub".to_string()),
        ty,
        directive_tokens: None,
        other_attrs: Vec::new(),
    }
}

#[test]
fn struct_transformer_emits_both_directions() {
    let data = StructData {
        fields: vec![plain_field("p", named("u64")), plain_field("vals", named("V"))],
        is_named: true,
    };
    let c = StructContainer::parse_new(&data).unwrap();
    assert_eq!(
        c.from_source_tokens(),
        "Self { p: RedefinedConvert::from_source(src.p), \
         vals: RedefinedConvert::from_source(src.vals), }"
    );
    assert_eq!(
        c.to_source_tokens("SourceA"),
        "SourceA { p: self.p.to_source(), vals: self.vals.to_source(), }"
    );
}

#[test]
fn struct_transformer_handles_positional_fields() {
    let mut f0 = plain_field("x", named("u64"));
    f0.ident = None;
    let mut f1 = plain_field("y", named("String"));
    f1.ident = None;
    let data = StructData { fields: vec![f0, f1], is_named: false };
    let c = StructContainer::parse_new(&data).unwrap();
    assert_eq!(
        c.from_source_tokens(),
        "Self(RedefinedConvert::from_source(src.0), RedefinedConvert::from_source(src.1), )"
    );
    assert_eq!(c.to_source_tokens("U"), "U(self.0.to_source(), self.1.to_source(), )");
}

#[test]
fn struct_transformer_keeps_empty_field_lists() {
    let data = StructData { fields: Vec::new(), is_named: true };
    let c = StructContainer::parse_new(&data).unwrap();
    assert_eq!(c.from_source_tokens(), "Self { }");
    assert_eq!(c.to_source_tokens("Empty"), "Empty { }");
}

#[test]
fn struct_field_custom_accessor() {
    let mut f = plain_field("p", named("u64"));
    f.directive_tokens = Some(vec![
        ident("func"),
        AttrToken::Eq,
        AttrToken::LitStr("src.get_p()".to_string()),
    ]);
    let data = StructData { fields: vec![f], is_named: true };
    let c = StructContainer::parse_new(&data).unwrap();
    assert_eq!(c.from_source_tokens(), "Self { p: RedefinedConvert::from_source(src.get_p()), }");
    // The backward direction still uses structural access.
    assert_eq!(c.to_source_tokens("S"), "S { p: self.p.to_source(), }");
}

fn positional_field(ty: TypeExpr) -> FieldDef {
    FieldDef { ident: None, vis: Some("pub".to_string()), ty, directive_tokens: None,
        other_attrs: Vec::new() }
}

fn three_variant_enum() -> EnumData {
    EnumData {
        variants: vec![
            VariantDef {
                ident: "A".to_string(),
                fields: VariantFields::Unit,
                discriminant: None,
                directive_tokens: None,
                other_attrs: Vec::new(),
            },
            VariantDef {
                ident: "B".to_string(),
                fields: VariantFields::Named(vec![plain_field("value", named("Inner"))]),
                discriminant: None,
                directive_tokens: None,
                other_attrs: Vec::new(),
            },
            VariantDef {
                ident: "C".to_string(),
                fields: VariantFields::Unnamed(vec![
                    positional_field(named("u64")),
                    positional_field(named("u64")),
                ]),
                discriminant: None,
                directive_tokens: None,
                other_attrs: Vec::new(),
            },
        ],
    }
}

#[test]
fn enum_transformer_emits_one_arm_per_variant() {
    let c = EnumContainer::parse_new(&three_variant_enum()).unwrap();
    assert_eq!(
        c.from_source_tokens("SrcE", "TgtE"),
        "match src { \
         SrcE::A => TgtE::A, \
         SrcE::B { value, } => TgtE::B { value: RedefinedConvert::from_source(value), }, \
         SrcE::C(x0, x1, ) => TgtE::C(RedefinedConvert::from_source(x0), \
         RedefinedConvert::from_source(x1), ), }"
    );
    assert_eq!(
        c.to_source_tokens("SrcE", "TgtE"),
        "match self { \
         TgtE::A => SrcE::A, \
         TgtE::B { value, } => SrcE::B { value: RedefinedConvert::to_source(value), }, \
         TgtE::C(x0, x1, ) => SrcE::C(RedefinedConvert::to_source(x0), \
         RedefinedConvert::to_source(x1), ), }"
    );
}

#[test]
fn enum_arm_forms() {
    let f = EnumField::new("Solo".to_string(), VariantShape::Unit);
    assert_eq!(f.from_source_tokens("S", "T"), "S::Solo => T::Solo, ");
    assert_eq!(f.to_source_tokens("S", "T"), "T::Solo => S::Solo, ");
}

fn linked_struct_declaration() -> TypeDeclaration {
    TypeDeclaration {
        ident: "BasicStructA".to_string(),
        vis: Some("pub".to_string()),
        generics: Vec::new(),
        container_tokens: None,
        source_tokens: Some(vec![ident("BasicStruct")]),
        other_attrs: Vec::new(),
        data: DataShape::Struct(StructData {
            fields: vec![plain_field("val1", named("u64"))],
            is_named: true,
        }),
    }
}

#[test]
fn linked_source_derivation_emits_the_paired_impls() {
    let text = expand_derive_redefined(&linked_struct_declaration(), false).unwrap();
    assert_eq!(
        text,
        "impl  redefined::RedefinedConvert<BasicStruct> for BasicStructA \
         { fn from_source(src: BasicStruct) -> Self { \
         Self { val1: RedefinedConvert::from_source(src.val1), } \
         } fn to_source(self) -> BasicStruct { \
         BasicStruct { val1: self.val1.to_source(), } } } \
         impl  From<BasicStruct> for BasicStructA \
         { fn from(src: BasicStruct) -> Self { redefined::RedefinedConvert::from_source(src) } } \
         impl  Into<BasicStruct> for BasicStructA \
         { fn into(self) -> BasicStruct { redefined::RedefinedConvert::to_source(self) } }"
    );
}

#[test]
fn raw_reinterpret_replaces_structural_bodies() {
    let mut decl = linked_struct_declaration();
    decl.container_tokens = Some(vec![ident("transmute")]);
    let text = expand_derive_redefined(&decl, false).unwrap();
    assert!(text.contains("core::mem::transmute::<BasicStruct, Self>(src)"));
    assert!(text.contains("core::mem::transmute::<Self, BasicStruct>(self)"));
    // No structural field code remains.
    assert!(!text.contains("from_source(src.val1)"));
    assert!(!text.contains("self.val1.to_source()"));
}

#[test]
fn overrides_replace_single_directions() {
    let mut decl = linked_struct_declaration();
    decl.container_tokens = Some(vec![
        ident("to_source"),
        AttrToken::Eq,
        AttrToken::LitStr("BasicStruct::new(self.val1)".to_string()),
    ]);
    let text = expand_derive_redefined(&decl, false).unwrap();
    assert!(text.contains("fn to_source(self) -> BasicStruct { BasicStruct::new(self.val1) }"));
    // The forward direction stays structural.
    assert!(text.contains("Self { val1: RedefinedConvert::from_source(src.val1), }"));
}

#[test]
fn generic_binding_builds_the_constraint_clause() {
    let mut decl = linked_struct_declaration();
    decl.ident = "GenericStructB".to_string();
    decl.source_tokens = Some(vec![ident("GenericStructA")]);
    decl.generics = vec![
        GenericParam::TypeParam { ident: "X".to_string(), default: None },
        GenericParam::TypeParam { ident: "Y".to_string(), default: None },
    ];
    decl.container_tokens = Some(vec![
        ident("generics"),
        AttrToken::OpenParen,
        ident("A"),
        AttrToken::Comma,
        ident("B"),
        AttrToken::CloseParen,
    ]);
    let text = expand_derive_redefined(&decl, false).unwrap();
    assert!(text.contains(
        "where X: redefined::RedefinedConvert<A>, Y: redefined::RedefinedConvert<B>, "
    ));
    assert!(text.contains("impl <X, Y, A, B, > redefined::RedefinedConvert<GenericStructA<A, B, >> \
                           for GenericStructB<X, Y, >"));
}

#[test]
fn positional_binding_suffixes_source_parameters() {
    let mut decl = linked_struct_declaration();
    decl.generics = vec![GenericParam::TypeParam { ident: "X".to_string(), default: None }];
    let text = expand_derive_redefined(&decl, false).unwrap();
    assert!(text.contains("where X: redefined::RedefinedConvert<XR>, "));
}

#[test]
fn generic_arity_mismatch_is_reported() {
    let mut decl = linked_struct_declaration();
    decl.generics = vec![
        GenericParam::TypeParam { ident: "X".to_string(), default: None },
        GenericParam::TypeParam { ident: "Y".to_string(), default: None },
    ];
    decl.container_tokens = Some(vec![
        ident("generics"),
        AttrToken::OpenParen,
        ident("A"),
        AttrToken::CloseParen,
    ]);
    match expand_derive_redefined(&decl, false) {
        Err(DeriveError::GenericArityMismatch { expected, found }) => {
            assert_eq!(expected, 2);
            assert_eq!(found, 1);
        }
        _ => panic!("expected a generic-arity failure"),
    }
}

#[test]
fn no_source_derivation_emits_a_mirror_declaration() {
    let decl = TypeDeclaration {
        ident: "BasicStructA".to_string(),
        vis: Some("pub".to_string()),
        generics: Vec::new(),
        container_tokens: None,
        source_tokens: None,
        other_attrs: Vec::new(),
        data: DataShape::Struct(StructData {
            fields: vec![plain_field("val1", named("u64")), plain_field("val2", named("Inner"))],
            is_named: true,
        }),
    };
    let text = expand_derive_redefined(&decl, false).unwrap();
    assert_eq!(
        text,
        "#[derive(Redefined, )] #[redefined(BasicStructA)] pub struct BasicStructARedefined \
         { pub val1: u64, pub val2: InnerRedefined, }"
    );
}

#[test]
fn no_source_enum_mirror_keeps_every_variant() {
    let decl = TypeDeclaration {
        ident: "EnumSrc".to_string(),
        vis: None,
        generics: Vec::new(),
        container_tokens: None,
        source_tokens: None,
        other_attrs: Vec::new(),
        data: DataShape::Enum(three_variant_enum()),
    };
    let text = expand_derive_redefined(&decl, false).unwrap();
    assert_eq!(
        text,
        "#[derive(Redefined, )] #[redefined(EnumSrc)] enum EnumSrcRedefined { \
         A, B { pub value: InnerRedefined, }, C(pub u64, pub u64, ), }"
    );
}

#[test]
fn same_fields_policy_disables_the_rewrite() {
    let mut f = plain_field("c", named("Inner"));
    f.directive_tokens = Some(vec![ident("same_fields")]);
    let decl = TypeDeclaration {
        ident: "KeepA".to_string(),
        vis: None,
        generics: Vec::new(),
        container_tokens: None,
        source_tokens: None,
        other_attrs: Vec::new(),
        data: DataShape::Struct(StructData { fields: vec![f], is_named: true }),
    };
    let text = expand_derive_redefined(&decl, false).unwrap();
    assert_eq!(
        text,
        "#[derive(Redefined, )] #[redefined(KeepA)] struct KeepARedefined { pub c: Inner, }"
    );
}

#[test]
fn field_override_map_retypes_one_identifier() {
    let mut f = plain_field("c", named("OutsideStructA"));
    f.directive_tokens = Some(vec![
        ident("field"),
        AttrToken::OpenParen,
        AttrToken::OpenParen,
        ident("OutsideStructA"),
        AttrToken::Comma,
        ident("OutsideStructB"),
        AttrToken::CloseParen,
        AttrToken::CloseParen,
    ]);
    let decl = TypeDeclaration {
        ident: "WithAttrA".to_string(),
        vis: None,
        generics: Vec::new(),
        container_tokens: None,
        source_tokens: None,
        other_attrs: Vec::new(),
        data: DataShape::Struct(StructData { fields: vec![f], is_named: true }),
    };
    let text = expand_derive_redefined(&decl, false).unwrap();
    assert_eq!(
        text,
        "#[derive(Redefined, )] #[redefined(WithAttrA)] struct WithAttrARedefined \
         { pub c: OutsideStructB, }"
    );
}

#[test]
fn extra_derives_are_forwarded() {
    let decl = TypeDeclaration {
        ident: "DerivedA".to_string(),
        vis: None,
        generics: Vec::new(),
        container_tokens: Some(vec![
            ident("derive"),
            AttrToken::OpenParen,
            ident("Debug"),
            AttrToken::Comma,
            ident("Clone"),
            AttrToken::CloseParen,
        ]),
        source_tokens: None,
        other_attrs: Vec::new(),
        data: DataShape::Struct(StructData { fields: Vec::new(), is_named: true }),
    };
    let text = expand_derive_redefined(&decl, false).unwrap();
    assert_eq!(
        text,
        "#[derive(Redefined, Debug, Clone, )] #[redefined(DerivedA)] struct DerivedARedefined { }"
    );
}

#[test]
fn error_messages_are_nonempty() {
    assert!(!DeriveError::MissingLinkedSource.message().is_empty());
    let e = DeriveError::GenericArityMismatch { expected: 2, found: 1 };
    assert!(!e.message().is_empty());
}

#[test]
fn explicit_discriminants_are_kept() {
    let decl = TypeDeclaration {
        ident: "Tagged".to_string(),
        vis: None,
        generics: Vec::new(),
        container_tokens: None,
        source_tokens: None,
        other_attrs: Vec::new(),
        data: DataShape::Enum(EnumData {
            variants: vec![
                VariantDef {
                    ident: "A".to_string(),
                    fields: VariantFields::Unit,
                    discriminant: Some("3".to_string()),
                    directive_tokens: None,
                    other_attrs: Vec::new(),
                },
                VariantDef {
                    ident: "B".to_string(),
                    fields: VariantFields::Unit,
                    discriminant: None,
                    directive_tokens: None,
                    other_attrs: Vec::new(),
                },
            ],
        }),
    };
    let text = expand_derive_redefined(&decl, false).unwrap();
    assert_eq!(
        text,
        "#[derive(Redefined, )] #[redefined(Tagged)] enum TaggedRedefined { A = 3, B, }"
    );
}

#[test]
fn defaulted_parameters_are_kept_in_declarations_and_dropped_from_constraints() {
    // The mirror declaration carries the default's text verbatim.
    let decl = TypeDeclaration {
        ident: "WithDefaultA".to_string(),
        vis: None,
        generics: vec![
            GenericParam::TypeParam { ident: "X".to_string(), default: None },
            GenericParam::TypeParam { ident: "Y".to_string(), default: Some("u64".to_string()) },
        ],
        container_tokens: None,
        source_tokens: None,
        other_attrs: Vec::new(),
        data: DataShape::Struct(StructData { fields: Vec::new(), is_named: true }),
    };
    let text = expand_derive_redefined(&decl, false).unwrap();
    assert_eq!(
        text,
        "#[derive(Redefined, )] #[redefined(WithDefaultA)] struct WithDefaultARedefined\
         <X, Y = u64, > { }"
    );

    // The constraint machinery ranges over the non-defaulted parameter only.
    let mut linked = linked_struct_declaration();
    linked.generics = vec![
        GenericParam::TypeParam { ident: "X".to_string(), default: None },
        GenericParam::TypeParam { ident: "Y".to_string(), default: Some("u64".to_string()) },
    ];
    let text = expand_derive_redefined(&linked, false).unwrap();
    assert!(text.contains("where X: redefined::RedefinedConvert<XR>, "));
    assert!(!text.contains("Y: redefined::RedefinedConvert"));
    assert!(text.contains("RedefinedConvert<BasicStruct<XR, >>"));

    // A remote derivation drops the default before emitting.
    let text = expand_derive_redefined(&decl, true).unwrap();
    assert_eq!(
        text,
        "#[derive(Redefined, )] #[redefined(WithDefaultA)] struct WithDefaultARedefined\
         <X, Y, > { }"
    );
}
