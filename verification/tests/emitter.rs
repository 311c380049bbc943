use visit_rs::attrs::{parse_meta_to_attribute_meta, AttrArgs, Delim, RawAttr, Tok};
use visit_rs::decl::{classify_fields, DeclBody, FieldDecl, FieldsShape, TypeDecl, VariantDecl};
use visit_rs::emit::{derive_visit_fields_, DeriveError, ImplKind};
use visit_rs::enum_variants::derive_all_variant_traits;
use visit_rs::metadata::{AttributeMeta, MetaValue};
use visit_rs::order::reassemble_in_order;

fn named_field(ident: &str, ty: &str, attrs: Vec<RawAttr>) -> FieldDecl {
    FieldDecl {
        ident: Some(ident.to_string()),
        ty: ty.to_string(),
        attrs,
    }
}

fn skip_attr() -> RawAttr {
    RawAttr {
        path: "visit".to_string(),
        args: AttrArgs::Paren(vec![Tok::Ident("skip".to_string())]),
    }
}

fn struct_decl(ident: &str, fields: Vec<FieldDecl>) -> TypeDecl {
    TypeDecl {
        ident: ident.to_string(),
        generics: vec![],
        attrs: vec![],
        body: DeclBody::Struct(fields),
    }
}

// A record type with fields host, port, enabled and no annotations.
fn config_decl() -> TypeDecl {
    struct_decl(
        "Config",
        vec![
            named_field("host", "String", vec![]),
            named_field("port", "i64", vec![]),
            named_field("enabled", "bool", vec![]),
        ],
    )
}

#[test]
fn config_named_traversal_end_to_end() {
    let derive = derive_visit_fields_(&config_decl()).expect("struct derive");
    assert_eq!(derive.info.name, "Config");
    assert!(derive.info.named_fields);
    assert_eq!(derive.info.field_count, 3);

    // Named positional traversal yields (host, string), (port, integer),
    // (enabled, boolean) in declaration order, in every variant.
    for imp in &derive.impls {
        let steps = &imp.arms[0].steps;
        assert_eq!(steps.len(), 3);
        assert_eq!(steps[0].name.as_deref(), Some("host"));
        assert_eq!(steps[0].ty, "String");
        assert_eq!(steps[0].position, 0);
        assert_eq!(steps[1].name.as_deref(), Some("port"));
        assert_eq!(steps[1].ty, "i64");
        assert_eq!(steps[1].position, 1);
        assert_eq!(steps[2].name.as_deref(), Some("enabled"));
        assert_eq!(steps[2].ty, "bool");
        assert_eq!(steps[2].position, 2);
    }
}

#[test]
fn skipped_field_is_invisible_everywhere() {
    // Three declared fields, one marked skip: the count is two in the
    // descriptor and in every traversal variant, and the skipped field
    // owns no slot and no bound obligation.
    let decl = struct_decl(
        "Record",
        vec![
            named_field("kept_a", "String", vec![]),
            named_field("hidden", "SecretToken", vec![skip_attr()]),
            named_field("kept_b", "u32", vec![]),
        ],
    );
    let derive = derive_visit_fields_(&decl).expect("struct derive");
    assert_eq!(derive.info.field_count, 2);
    assert_eq!(derive.impls.len(), 10);
    for imp in &derive.impls {
        let steps = &imp.arms[0].steps;
        assert_eq!(steps.len(), 2);
        assert_eq!(steps[0].name.as_deref(), Some("kept_a"));
        assert_eq!(steps[0].decl_index, 0);
        assert_eq!(steps[0].position, 0);
        assert_eq!(steps[1].name.as_deref(), Some("kept_b"));
        assert_eq!(steps[1].decl_index, 2);
        assert_eq!(steps[1].position, 1);
        assert_eq!(imp.bounds, vec!["String".to_string(), "u32".to_string()]);
    }
}

#[test]
fn bound_obligations_are_deduplicated() {
    let decl = struct_decl(
        "Repeats",
        vec![
            named_field("a", "String", vec![]),
            named_field("b", "String", vec![]),
            named_field("c", "i32", vec![]),
            named_field("d", "String", vec![]),
        ],
    );
    let derive = derive_visit_fields_(&decl).expect("struct derive");
    for imp in &derive.impls {
        assert_eq!(imp.bounds, vec!["String".to_string(), "i32".to_string()]);
        assert_eq!(imp.arms[0].steps.len(), 4);
    }
}

#[test]
fn shape_classification_round_trip() {
    let unit: Vec<FieldDecl> = vec![];
    let positional = vec![FieldDecl {
        ident: None,
        ty: "u8".to_string(),
        attrs: vec![],
    }];
    let named = vec![named_field("x", "u8", vec![])];

    assert_eq!(classify_fields(&unit), FieldsShape::Unit);
    assert_eq!(classify_fields(&positional), FieldsShape::Positional);
    assert_eq!(classify_fields(&named), FieldsShape::Named);

    // Reclassifying the same declaration yields the same classification.
    assert_eq!(classify_fields(&unit), classify_fields(&unit));
    assert_eq!(classify_fields(&positional), classify_fields(&positional));
    assert_eq!(classify_fields(&named), classify_fields(&named));

    let derive = derive_visit_fields_(&struct_decl("Empty", vec![])).expect("struct derive");
    assert_eq!(derive.info.field_count, 0);
}

#[test]
fn enum_end_to_end() {
    // enum with variants Unit, Single(String), Tuple(i32, f32),
    // Struct { foo: String, bar: Vec<u8> }.
    let decl = TypeDecl {
        ident: "TestEnum".to_string(),
        generics: vec![],
        attrs: vec![],
        body: DeclBody::Enum(vec![
            VariantDecl {
                ident: "Unit".to_string(),
                fields: vec![],
                attrs: vec![],
            },
            VariantDecl {
                ident: "Single".to_string(),
                fields: vec![FieldDecl {
                    ident: None,
                    ty: "String".to_string(),
                    attrs: vec![],
                }],
                attrs: vec![],
            },
            VariantDecl {
                ident: "Tuple".to_string(),
                fields: vec![
                    FieldDecl {
                        ident: None,
                        ty: "i32".to_string(),
                        attrs: vec![],
                    },
                    FieldDecl {
                        ident: None,
                        ty: "f32".to_string(),
                        attrs: vec![],
                    },
                ],
                attrs: vec![],
            },
            VariantDecl {
                ident: "Struct".to_string(),
                fields: vec![
                    named_field("foo", "String", vec![]),
                    named_field("bar", "Vec<u8>", vec![]),
                ],
                attrs: vec![],
            },
        ]),
    };
    let derive = derive_all_variant_traits(&decl).expect("enum derive");
    assert_eq!(derive.info.data.variant_count, 4);
    let counts: Vec<usize> = derive
        .info
        .variants
        .iter()
        .map(|v| v.field_count)
        .collect();
    assert_eq!(counts, vec![0, 1, 2, 2]);

    assert_eq!(derive.impls.len(), 12);
    for imp in &derive.impls {
        assert_eq!(imp.arms.len(), 4);
        // Visiting the Struct variant yields foo then bar, never the
        // reverse, whatever the traversal variant.
        let struct_arm = &imp.arms[3];
        assert_eq!(struct_arm.variant_ident, "Struct");
        assert_eq!(struct_arm.steps.len(), 2);
        assert_eq!(struct_arm.steps[0].name.as_deref(), Some("foo"));
        assert_eq!(struct_arm.steps[1].name.as_deref(), Some("bar"));
        if imp.kind == ImplKind::VariantFields {
            assert_eq!(
                imp.bounds,
                vec![
                    "String".to_string(),
                    "i32".to_string(),
                    "f32".to_string(),
                    "Vec<u8>".to_string()
                ]
            );
        } else {
            assert!(imp.bounds.is_empty());
        }
    }
}

#[test]
fn derive_entry_points_reject_the_wrong_shape() {
    let an_enum = TypeDecl {
        ident: "NotAStruct".to_string(),
        generics: vec![],
        attrs: vec![],
        body: DeclBody::Enum(vec![]),
    };
    let a_struct = struct_decl("NotAnEnum", vec![]);
    let a_union = TypeDecl {
        ident: "SomeUnion".to_string(),
        generics: vec![],
        attrs: vec![],
        body: DeclBody::Union,
    };

    let err = derive_visit_fields_(&an_enum).unwrap_err();
    assert_eq!(err, DeriveError::NotAStruct);
    assert_eq!(err.message(), "VisitFields can only be derived for structs");
    assert!(derive_visit_fields_(&a_union).is_err());

    let err = derive_all_variant_traits(&a_struct).unwrap_err();
    assert_eq!(err, DeriveError::NotAnEnum);
    assert_eq!(err.message(), "VisitVariants can only be derived for enums");
    assert!(derive_all_variant_traits(&a_union).is_err());
}

#[test]
fn parallel_results_reassemble_in_declaration_order() {
    // Completion order reversed: the slowest field is the first
    // declared. The reassembled order is still the declaration order.
    let completed = vec![(2usize, "c"), (1usize, "b"), (0usize, "a")];
    let out = reassemble_in_order(completed, 3).expect("covers all positions");
    assert_eq!(out, vec!["a", "b", "c"]);

    // A missing position is rejected rather than reordered silently.
    assert!(reassemble_in_order(vec![(0usize, "a"), (2usize, "c")], 3).is_none());
    // A duplicated position leaves some slot uncovered.
    assert!(
        reassemble_in_order(vec![(0usize, "a"), (0usize, "b"), (2usize, "c")], 3).is_none()
    );
}

#[test]
fn attribute_decode_is_total() {
    // Every syntactically valid attribute under a recognised namespace
    // decodes to some metadata value; unknown shapes degrade to the
    // verbatim fallbacks instead of failing.
    let bare = RawAttr {
        path: "visit".to_string(),
        args: AttrArgs::Bare,
    };
    assert_eq!(
        parse_meta_to_attribute_meta(&bare),
        AttributeMeta::Path {
            path: "visit".to_string()
        }
    );

    // #[visit(outer(inner))]: the list contents re-parse recursively.
    let nested = RawAttr {
        path: "visit".to_string(),
        args: AttrArgs::Paren(vec![
            Tok::Ident("outer".to_string()),
            Tok::Group(Delim::Paren, vec![Tok::Ident("inner".to_string())]),
        ]),
    };
    match parse_meta_to_attribute_meta(&nested) {
        AttributeMeta::List { path, items } => {
            assert_eq!(path, "visit");
            match &items[0] {
                AttributeMeta::List { path, items } => {
                    assert_eq!(path, "outer");
                    assert_eq!(
                        items[0],
                        AttributeMeta::Path {
                            path: "inner".to_string()
                        }
                    );
                }
                other => panic!("expected a nested list, got {:?}", other),
            }
        }
        other => panic!("expected a list, got {:?}", other),
    }

    // #[visit(1 2 3)]: no recognised shape at all, kept verbatim.
    let garbled = RawAttr {
        path: "visit".to_string(),
        args: AttrArgs::Paren(vec![
            Tok::Literal("1".to_string()),
            Tok::Literal("2".to_string()),
            Tok::Literal("3".to_string()),
        ]),
    };
    assert_eq!(
        parse_meta_to_attribute_meta(&garbled),
        AttributeMeta::Unparsed {
            path: "visit".to_string(),
            tokens: "1 2 3".to_string()
        }
    );
}

fn name_value_attr(tokens: Vec<Tok>) -> AttributeMeta {
    let attr = RawAttr {
        path: "visit".to_string(),
        args: AttrArgs::Paren(tokens),
    };
    match parse_meta_to_attribute_meta(&attr) {
        AttributeMeta::List { mut items, .. } => items.remove(0),
        other => panic!("expected a list, got {:?}", other),
    }
}

#[test]
fn literal_values_decode_by_lexical_kind() {
    let kv = |key: &str, lit: &str| {
        name_value_attr(vec![
            Tok::Ident(key.to_string()),
            Tok::Punct('='),
            Tok::Literal(lit.to_string()),
        ])
    };

    match kv("s", "\"a\\nb\"") {
        AttributeMeta::NameValue { value, .. } => {
            assert_eq!(value, MetaValue::Str("a\nb".to_string()))
        }
        other => panic!("expected a name-value pair, got {:?}", other),
    }
    match kv("n", "42") {
        AttributeMeta::NameValue { value, .. } => assert_eq!(value, MetaValue::Int(42)),
        other => panic!("expected a name-value pair, got {:?}", other),
    }
    match kv("n", "9223372036854775807") {
        AttributeMeta::NameValue { value, .. } => {
            assert_eq!(value, MetaValue::Int(i64::MAX))
        }
        other => panic!("expected a name-value pair, got {:?}", other),
    }
    // An integer too wide for the chosen width is kept verbatim, never
    // truncated.
    match kv("n", "9223372036854775808") {
        AttributeMeta::NameValue { value, .. } => {
            assert_eq!(
                value,
                MetaValue::Unparsed("9223372036854775808".to_string())
            )
        }
        other => panic!("expected a name-value pair, got {:?}", other),
    }
    match kv("f", "2.5") {
        AttributeMeta::NameValue { value, .. } => {
            assert_eq!(value, MetaValue::Float("2.5".to_string()))
        }
        other => panic!("expected a name-value pair, got {:?}", other),
    }
    // true and false are boolean literals, any other identifier a path.
    match name_value_attr(vec![
        Tok::Ident("b".to_string()),
        Tok::Punct('='),
        Tok::Ident("true".to_string()),
    ]) {
        AttributeMeta::NameValue { value, .. } => assert_eq!(value, MetaValue::Bool(true)),
        other => panic!("expected a name-value pair, got {:?}", other),
    }
    match name_value_attr(vec![
        Tok::Ident("p".to_string()),
        Tok::Punct('='),
        Tok::Ident("some_path".to_string()),
    ]) {
        AttributeMeta::NameValue { value, .. } => {
            assert_eq!(value, MetaValue::Path("some_path".to_string()))
        }
        other => panic!("expected a name-value pair, got {:?}", other),
    }
}
