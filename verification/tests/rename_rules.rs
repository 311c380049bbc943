use visit_rs::rename::{resolve_name, RenameRule};

#[test]
fn resolve_name_applies_each_rule() {
    // Resolution without an explicit rename is a pure function of the
    // identifier and the rule.
    assert_eq!(
        resolve_name("VariantOne", None, RenameRule::SnakeCase),
        "variant_one"
    );
    assert_eq!(
        resolve_name("SomeLongVariantName", None, RenameRule::SnakeCase),
        "some_long_variant_name"
    );
    assert_eq!(
        resolve_name("FirstVariant", None, RenameRule::ScreamingSnakeCase),
        "FIRST_VARIANT"
    );
    assert_eq!(
        resolve_name("test_variant", None, RenameRule::PascalCase),
        "TestVariant"
    );
    assert_eq!(
        resolve_name("TestVariant", None, RenameRule::CamelCase),
        "testVariant"
    );
    assert_eq!(
        resolve_name("TestVariant", None, RenameRule::KebabCase),
        "test-variant"
    );
    assert_eq!(
        resolve_name("TestVariant", None, RenameRule::ScreamingKebabCase),
        "TEST-VARIANT"
    );
    assert_eq!(
        resolve_name("TestVariant", None, RenameRule::Identity),
        "TestVariant"
    );
    assert_eq!(
        resolve_name("TestVariant", None, RenameRule::LowerCase),
        "testvariant"
    );
    assert_eq!(
        resolve_name("TestVariant", None, RenameRule::UpperCase),
        "TESTVARIANT"
    );
}

#[test]
fn explicit_rename_overrides_blanket_rule() {
    assert_eq!(
        resolve_name(
            "SecondVariant",
            Some("CustomName"),
            RenameRule::ScreamingSnakeCase
        ),
        "CustomName"
    );
    // The blanket rule alone would have yielded the converted form.
    assert_eq!(
        resolve_name("SecondVariant", None, RenameRule::ScreamingSnakeCase),
        "SECOND_VARIANT"
    );
}

#[test]
fn rule_lookup_recognises_the_nine_spellings() {
    assert_eq!(RenameRule::from_str("lowercase"), Some(RenameRule::LowerCase));
    assert_eq!(RenameRule::from_str("UPPERCASE"), Some(RenameRule::UpperCase));
    assert_eq!(
        RenameRule::from_str("PascalCase"),
        Some(RenameRule::PascalCase)
    );
    assert_eq!(RenameRule::from_str("camelCase"), Some(RenameRule::CamelCase));
    assert_eq!(
        RenameRule::from_str("snake_case"),
        Some(RenameRule::SnakeCase)
    );
    assert_eq!(
        RenameRule::from_str("SCREAMING_SNAKE_CASE"),
        Some(RenameRule::ScreamingSnakeCase)
    );
    assert_eq!(
        RenameRule::from_str("kebab-case"),
        Some(RenameRule::KebabCase)
    );
    assert_eq!(
        RenameRule::from_str("SCREAMING-KEBAB-CASE"),
        Some(RenameRule::ScreamingKebabCase)
    );
    // An unrecognised spelling selects no rule at all.
    assert_eq!(RenameRule::from_str("SnakeCase"), None);
    assert_eq!(RenameRule::from_str(""), None);
}

#[test]
fn rules_are_total_on_the_empty_identifier() {
    assert_eq!(RenameRule::PascalCase.apply(""), "");
    assert_eq!(RenameRule::CamelCase.apply(""), "");
    assert_eq!(RenameRule::SnakeCase.apply(""), "");
    assert_eq!(RenameRule::KebabCase.apply(""), "");
    assert_eq!(RenameRule::LowerCase.apply(""), "");
    assert_eq!(RenameRule::UpperCase.apply(""), "");
}

#[test]
fn separators_and_transitions() {
    assert_eq!(RenameRule::PascalCase.apply("some-mixed_name"), "SomeMixedName");
    assert_eq!(RenameRule::SnakeCase.apply("already_snake"), "already_snake");
    assert_eq!(RenameRule::SnakeCase.apply("kebab-input"), "kebab_input");
    assert_eq!(RenameRule::SnakeCase.apply("HTTPServer"), "httpserver");
    assert_eq!(RenameRule::CamelCase.apply("one"), "one");
    assert_eq!(RenameRule::KebabCase.apply("MixedCase_and-more"), "mixed-case-and-more");
}

#[test]
fn unicode_case_folding_runs_through_the_standard_library() {
    // Non-ASCII letters go through the real Unicode case mapping.
    assert_eq!(
        RenameRule::PascalCase.apply("\u{e9}cole"),
        "\u{c9}cole"
    );
    assert_eq!(
        RenameRule::CamelCase.apply("\u{c9}cole"),
        "\u{e9}cole"
    );
    // An uppercase non-ASCII letter still triggers the snake transition.
    assert_eq!(RenameRule::SnakeCase.apply("a\u{c9}b"), "a_\u{e9}b");
    // A lowercase non-ASCII letter counts as lowercase for transitions.
    assert_eq!(RenameRule::SnakeCase.apply("\u{e9}B"), "\u{e9}_b");
    // Whole-string folding.
    assert_eq!(RenameRule::LowerCase.apply("\u{c9}COLE"), "\u{e9}cole");
    assert_eq!(RenameRule::UpperCase.apply("\u{e9}cole"), "\u{c9}COLE");
}
