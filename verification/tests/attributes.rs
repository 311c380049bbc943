use visit_rs::attrs::{extract_all_meta, AttrArgs, RawAttr, Tok};
use visit_rs::decl::{DeclBody, FieldDecl, TypeDecl};
use visit_rs::emit::derive_visit_fields_;
use visit_rs::metadata::{AttributeMeta, MetaValue};

fn attr_name_value(path: &str, key: &str, value: &str) -> RawAttr {
    RawAttr {
        path: path.to_string(),
        args: AttrArgs::Paren(vec![
            Tok::Ident(key.to_string()),
            Tok::Punct('='),
            Tok::Literal(format!("\"{}\"", value)),
        ]),
    }
}

fn attr_bare_marker(path: &str, marker: &str) -> RawAttr {
    RawAttr {
        path: path.to_string(),
        args: AttrArgs::Paren(vec![Tok::Ident(marker.to_string())]),
    }
}

fn my_struct_decl() -> TypeDecl {
    TypeDecl {
        ident: "MyStruct".to_string(),
        generics: vec![],
        attrs: vec![
            attr_name_value("visit", "some_attr", "value"),
            attr_bare_marker("visit", "another_attr"),
        ],
        body: DeclBody::Struct(vec![
            FieldDecl {
                ident: Some("field1".to_string()),
                ty: "String".to_string(),
                attrs: vec![attr_name_value("visit", "field_attr", "field_value")],
            },
            FieldDecl {
                ident: Some("field2".to_string()),
                ty: "i32".to_string(),
                attrs: vec![],
            },
        ]),
    }
}

#[test]
fn test_struct_metadata() {
    let decl = my_struct_decl();
    let attrs = extract_all_meta(&decl.attrs);
    assert_eq!(attrs.len(), 2);

    // Check first attribute: #[visit(some_attr = "value")]
    match &attrs[0] {
        AttributeMeta::List { path, items } => {
            // It's parsed as a List containing a NameValue
            assert_eq!(path, "visit");
            assert_eq!(items.len(), 1);
            match &items[0] {
                AttributeMeta::NameValue { name, value, .. } => {
                    assert_eq!(name, "some_attr");
                    match value {
                        MetaValue::Str(s) => assert_eq!(s, "value"),
                        _ => panic!("Expected Str value"),
                    }
                }
                _ => panic!("Expected NameValue in list"),
            }
        }
        _ => panic!("Expected List attribute, got {:?}", attrs[0]),
    }

    // Check second attribute: #[visit(another_attr)]
    match &attrs[1] {
        AttributeMeta::List { path, items } => {
            assert_eq!(path, "visit");
            assert_eq!(items.len(), 1);
            match &items[0] {
                AttributeMeta::Path { path } => {
                    assert_eq!(path, "another_attr");
                }
                _ => panic!("Expected Path in list"),
            }
        }
        _ => panic!("Expected List attribute"),
    }
}

#[test]
fn test_field_metadata() {
    // MyStruct { field1: "test".to_string(), field2: 42 }: the values do
    // not carry metadata; the named traversal visits field1 then field2.
    let decl = my_struct_decl();
    let fields = match &decl.body {
        DeclBody::Struct(fields) => fields,
        _ => panic!("Expected a struct declaration"),
    };
    let derive = derive_visit_fields_(&decl).expect("struct derive");
    // the named traversal implementation
    let named_impl = &derive.impls[2];
    let mut metadata: Vec<Vec<AttributeMeta>> = Vec::new();
    for step in &named_impl.arms[0].steps {
        metadata.push(extract_all_meta(&fields[step.decl_index].attrs));
    }

    // field1 should have one attribute
    assert_eq!(metadata[0].len(), 1);
    match &metadata[0][0] {
        AttributeMeta::List { path, items } => {
            assert_eq!(path, "visit");
            assert_eq!(items.len(), 1);
            match &items[0] {
                AttributeMeta::NameValue { name, value, .. } => {
                    assert_eq!(name, "field_attr");
                    match value {
                        MetaValue::Str(s) => assert_eq!(s, "field_value"),
                        _ => panic!("Expected Str value"),
                    }
                }
                _ => panic!("Expected NameValue in list"),
            }
        }
        _ => panic!("Expected List attribute, got {:?}", metadata[0][0]),
    }

    // field2 should have no attributes
    assert_eq!(metadata[1].len(), 0);
}
