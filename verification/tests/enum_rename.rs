use visit_rs::attrs::{AttrArgs, RawAttr, Tok};
use visit_rs::decl::{DeclBody, TypeDecl, VariantDecl};
use visit_rs::enum_variants::{derive_enum_info, variant_info_by_name};

fn rename_attr(value: &str) -> RawAttr {
    RawAttr {
        path: "visit".to_string(),
        args: AttrArgs::Paren(vec![
            Tok::Ident("rename".to_string()),
            Tok::Punct('='),
            Tok::Literal(format!("\"{}\"", value)),
        ]),
    }
}

fn rename_all_attr(value: &str) -> RawAttr {
    RawAttr {
        path: "visit".to_string(),
        args: AttrArgs::Paren(vec![
            Tok::Ident("rename_all".to_string()),
            Tok::Punct('='),
            Tok::Literal(format!("\"{}\"", value)),
        ]),
    }
}

fn unit_variant(ident: &str, attrs: Vec<RawAttr>) -> VariantDecl {
    VariantDecl {
        ident: ident.to_string(),
        fields: vec![],
        attrs,
    }
}

fn enum_decl(ident: &str, attrs: Vec<RawAttr>, variants: Vec<VariantDecl>) -> TypeDecl {
    TypeDecl {
        ident: ident.to_string(),
        generics: vec![],
        attrs,
        body: DeclBody::Enum(variants),
    }
}

// enum BasicEnum { #[visit(rename = "custom_variant")] VariantOne, VariantTwo }
fn basic_enum() -> TypeDecl {
    enum_decl(
        "BasicEnum",
        vec![],
        vec![
            unit_variant("VariantOne", vec![rename_attr("custom_variant")]),
            unit_variant("VariantTwo", vec![]),
        ],
    )
}

// #[visit(rename_all = "snake_case")]
// enum SnakeCaseEnum { VariantOne, VariantTwo, SomeLongVariantName }
fn snake_case_enum() -> TypeDecl {
    enum_decl(
        "SnakeCaseEnum",
        vec![rename_all_attr("snake_case")],
        vec![
            unit_variant("VariantOne", vec![]),
            unit_variant("VariantTwo", vec![]),
            unit_variant("SomeLongVariantName", vec![]),
        ],
    )
}

// #[visit(rename_all = "SCREAMING_SNAKE_CASE")]
// enum MixedRenameEnum { FirstVariant, #[visit(rename = "CustomName")] SecondVariant, ThirdVariant }
fn mixed_rename_enum() -> TypeDecl {
    enum_decl(
        "MixedRenameEnum",
        vec![rename_all_attr("SCREAMING_SNAKE_CASE")],
        vec![
            unit_variant("FirstVariant", vec![]),
            unit_variant("SecondVariant", vec![rename_attr("CustomName")]),
            unit_variant("ThirdVariant", vec![]),
        ],
    )
}

fn variants_of(decl: &TypeDecl) -> Vec<visit_rs::StructInfoData> {
    let variants = match &decl.body {
        DeclBody::Enum(variants) => variants,
        _ => panic!("Expected an enum declaration"),
    };
    derive_enum_info(decl, variants).variants
}

#[test]
fn test_basic_variant_rename() {
    let variants = variants_of(&basic_enum());
    assert_eq!(variants[0].name, "custom_variant");
    assert_eq!(variants[1].name, "VariantTwo");
}

#[test]
fn test_rename_all_snake_case() {
    let variants = variants_of(&snake_case_enum());
    assert_eq!(variants[0].name, "variant_one");
    assert_eq!(variants[1].name, "variant_two");
    assert_eq!(variants[2].name, "some_long_variant_name");
}

#[test]
fn test_rename_all_screaming_snake_case() {
    let variants = variants_of(&mixed_rename_enum());
    assert_eq!(variants[0].name, "FIRST_VARIANT");
    assert_eq!(variants[1].name, "CustomName"); // override
    assert_eq!(variants[2].name, "THIRD_VARIANT");
}

#[test]
fn test_variant_info_by_name_with_rename() {
    let variants = variants_of(&snake_case_enum());
    let info = variant_info_by_name(&variants, "variant_one");
    assert!(info.is_some());
    assert_eq!(info.unwrap().name, "variant_one");

    // Original name should not work
    let info = variant_info_by_name(&variants, "VariantOne");
    assert!(info.is_none());
}

#[test]
fn test_case_conversions() {
    // #[visit(rename_all = "PascalCase")] enum PascalCase { test_variant }
    let pascal = enum_decl(
        "PascalCase",
        vec![rename_all_attr("PascalCase")],
        vec![unit_variant("test_variant", vec![])],
    );
    // #[visit(rename_all = "camelCase")] enum CamelCase { TestVariant }
    let camel = enum_decl(
        "CamelCase",
        vec![rename_all_attr("camelCase")],
        vec![unit_variant("TestVariant", vec![])],
    );
    // #[visit(rename_all = "kebab-case")] enum KebabCase { TestVariant }
    let kebab = enum_decl(
        "KebabCase",
        vec![rename_all_attr("kebab-case")],
        vec![unit_variant("TestVariant", vec![])],
    );
    // #[visit(rename_all = "SCREAMING-KEBAB-CASE")] enum ScreamingKebabCase { TestVariant }
    let screaming_kebab = enum_decl(
        "ScreamingKebabCase",
        vec![rename_all_attr("SCREAMING-KEBAB-CASE")],
        vec![unit_variant("TestVariant", vec![])],
    );

    assert_eq!(variants_of(&pascal)[0].name, "TestVariant");
    assert_eq!(variants_of(&camel)[0].name, "testVariant");
    assert_eq!(variants_of(&kebab)[0].name, "test-variant");
    assert_eq!(variants_of(&screaming_kebab)[0].name, "TEST-VARIANT");
}
