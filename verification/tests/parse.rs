use std::sync::Arc;

use style::shared_lock::SharedRwLock;
use style::stylesheets::rule_parser::InsertRuleContext;
use style::stylesheets::{
    AllowImportRules, CssRule, CssRuleType, CssRuleTypes, CssRules, Namespaces, Origin, QuirksMode,
    RulesMutateError, StylesheetContents, UrlExtraData,
};

fn sheet(lock: &SharedRwLock) -> StylesheetContents {
    StylesheetContents {
        rules: Arc::new(lock.wrap(CssRules(Vec::new()))),
        origin: Origin::Author,
        url_data: UrlExtraData::new(0x1000),
        namespaces: Namespaces::new(),
        quirks_mode: QuirksMode::NoQuirks,
    }
}

fn parse_in(
    text: &str,
    list: &[CssRule],
    index: usize,
    containing: CssRuleTypes,
) -> Result<CssRule, RulesMutateError> {
    let lock = SharedRwLock::new(1);
    let context = InsertRuleContext {
        rule_list: list,
        index,
        containing_rule_types: containing,
        parse_relative_rule_type: None,
    };
    CssRule::parse(text, context, &sheet(&lock), &lock, AllowImportRules::Yes)
}

fn parse(text: &str) -> Result<CssRule, RulesMutateError> {
    parse_in(text, &[], 0, CssRuleTypes::default())
}

fn css(rule: &CssRule) -> String {
    rule.to_css_string(&SharedRwLock::new(1).read())
}

fn round_trip(text: &str, rule_type: CssRuleType, serialized: &str) {
    let rule = parse(text).unwrap();
    assert_eq!(rule.rule_type(), rule_type);
    assert_eq!(css(&rule), serialized);
    let again = parse(&css(&rule)).unwrap();
    assert_eq!(again.rule_type(), rule_type);
    assert_eq!(css(&again), serialized);
}

#[test]
fn style_rule_is_normalized() {
    round_trip("  .a{color:red}  ", CssRuleType::Style, ".a { color: red; }");
    round_trip(
        "a:hover , b { color : red ; width:10px }",
        CssRuleType::Style,
        "a:hover , b { color: red; width: 10px; }",
    );
    round_trip(".a { }", CssRuleType::Style, ".a { }");
    round_trip(".a { ;; color: red;; }", CssRuleType::Style, ".a { color: red; }");
}

#[test]
fn style_rule_with_nested_rules_is_written_on_lines() {
    round_trip(
        ".a { color: red; .b { color: blue } }",
        CssRuleType::Style,
        ".a {\n  color: red;\n  .b { color: blue; }\n}",
    );
    round_trip(
        ".a { @media print { .b { color: blue } } }",
        CssRuleType::Style,
        ".a {\n  @media print {\n  .b { color: blue; }\n}\n}",
    );
}

#[test]
fn group_rules_hold_their_rules_in_a_block() {
    round_trip(
        "@media screen { .a { color: red; } }",
        CssRuleType::Media,
        "@media screen {\n  .a { color: red; }\n}",
    );
    round_trip("@media screen { }", CssRuleType::Media, "@media screen {\n}");
    round_trip(
        "@supports (display: grid) { .a { display: grid } .b { float: left } }",
        CssRuleType::Supports,
        "@supports (display: grid) {\n  .a { display: grid; }\n  .b { float: left; }\n}",
    );
    round_trip(
        "@container card (min-width: 400px) { .a { color: red } }",
        CssRuleType::Container,
        "@container card (min-width: 400px) {\n  .a { color: red; }\n}",
    );
    round_trip(
        "@-moz-document url-prefix(x) { .a { color: red } }",
        CssRuleType::Document,
        "@-moz-document url-prefix(x) {\n  .a { color: red; }\n}",
    );
    round_trip(
        "@scope (.a) to (.b) { .c { color: red } }",
        CssRuleType::Scope,
        "@scope (.a) to (.b) {\n  .c { color: red; }\n}",
    );
    round_trip(
        "@starting-style { .a { opacity: 0 } }",
        CssRuleType::StartingStyle,
        "@starting-style {\n  .a { opacity: 0; }\n}",
    );
}

#[test]
fn layer_is_a_block_or_a_statement() {
    round_trip("@layer base;", CssRuleType::LayerStatement, "@layer base;");
    round_trip("@layer a, b ;", CssRuleType::LayerStatement, "@layer a, b;");
    round_trip("@layer base { }", CssRuleType::LayerBlock, "@layer base {\n}");
    round_trip(
        "@layer { .a { color: red } }",
        CssRuleType::LayerBlock,
        "@layer {\n  .a { color: red; }\n}",
    );
}

#[test]
fn statement_rules_end_with_a_semicolon() {
    round_trip(
        "@import url(foo.css) screen;",
        CssRuleType::Import,
        "@import url(foo.css) screen;",
    );
    round_trip(
        "@namespace svg url(http://www.w3.org/2000/svg);",
        CssRuleType::Namespace,
        "@namespace svg url(http://www.w3.org/2000/svg);",
    );
}

#[test]
fn descriptor_rules_hold_declarations() {
    round_trip(
        "@font-face { font-family: x; src: url(y) }",
        CssRuleType::FontFace,
        "@font-face { font-family: x; src: url(y); }",
    );
    round_trip("@font-face{}", CssRuleType::FontFace, "@font-face { }");
    round_trip(
        "@counter-style thumbs { system: cyclic; symbols: x }",
        CssRuleType::CounterStyle,
        "@counter-style thumbs { system: cyclic; symbols: x; }",
    );
    round_trip(
        "@property --x { syntax: '*'; inherits: false }",
        CssRuleType::Property,
        "@property --x { syntax: '*'; inherits: false; }",
    );
    round_trip(
        "@font-palette-values --p { font-family: x }",
        CssRuleType::FontPaletteValues,
        "@font-palette-values --p { font-family: x; }",
    );
    round_trip(
        "@font-feature-values Font One { font-display: swap }",
        CssRuleType::FontFeatureValues,
        "@font-feature-values Font One { font-display: swap; }",
    );
    round_trip(
        "@position-try --top { top: anchor(bottom) }",
        CssRuleType::PositionTry,
        "@position-try --top { top: anchor(bottom); }",
    );
}

#[test]
fn keyframes_rule_holds_keyframes() {
    round_trip(
        "@keyframes spin { from { left: 0 } 50%, to { left: 10px } }",
        CssRuleType::Keyframes,
        "@keyframes spin {\n  from { left: 0; }\n  50%, to { left: 10px; }\n}",
    );
    round_trip("@keyframes spin { }", CssRuleType::Keyframes, "@keyframes spin {\n}");
}

#[test]
fn page_rule_holds_declarations_and_margin_rules() {
    round_trip("@page { margin: 1in }", CssRuleType::Page, "@page { margin: 1in; }");
    round_trip(
        "@page :first { margin: 1in; @top-left { content: x } }",
        CssRuleType::Page,
        "@page :first {\n  margin: 1in;\n  @top-left { content: x; }\n}",
    );
    round_trip("@page{}", CssRuleType::Page, "@page { }");
}

#[test]
fn text_that_is_no_rule_is_a_syntax_error() {
    for text in [
        "",
        "   ",
        "color: red;",
        ".a { color: red; } .b { }",
        ".a { color: red; } x",
        ".a { color: red;",
        ".a { color }",
        ".a { : red }",
        ".a { color: }",
        "{ color: red }",
        "}",
        "@unknown { }",
        "@media screen;",
        "@import url(x) { }",
        "@media screen { .a { color: red; }",
        "@media screen { color: red; }",
        "@keyframes spin { from { left: 0 } to }",
        ".a { .b { } color: red; }",
    ] {
        assert_eq!(parse(text).err(), Some(RulesMutateError::Syntax), "{}", text);
    }
}

#[test]
fn rule_that_may_not_be_nested_is_left_out() {
    for (text, rule_type, serialized) in [
        ("@media screen { @import url(x); }", CssRuleType::Media, "@media screen {\n}"),
        ("@media screen { @namespace x; .a { } }", CssRuleType::Media, "@media screen {\n  .a { }\n}"),
        ("@media screen { .a { } @top-left { } .b { } }", CssRuleType::Media,
            "@media screen {\n  .a { }\n  .b { }\n}"),
        (".a { @font-face { } }", CssRuleType::Style, ".a { }"),
        (".a { color: red; @font-face { } .b { } }", CssRuleType::Style,
            ".a {\n  color: red;\n  .b { }\n}"),
        (".a { @media screen { @keyframes k { } } }", CssRuleType::Style,
            ".a {\n  @media screen {\n}\n}"),
        ("@page { .a { } }", CssRuleType::Page, "@page { }"),
        ("@page { margin: 0; @media screen { } @top-left { } }", CssRuleType::Page,
            "@page {\n  margin: 0;\n  @top-left { }\n}"),
    ] {
        round_trip(text, rule_type, serialized);
    }
    assert!(parse("@media screen { @keyframes k { } @layer a; @page { } }").is_ok());
    // a nested rule that is malformed is no rule, and neither is the rule around it
    for text in [
        "@media screen { @import url(x) }",
        "@media screen { @unknown { } }",
        ".a { @font-face { x } }",
    ] {
        assert_eq!(parse(text).err(), Some(RulesMutateError::Syntax), "{}", text);
    }
}

#[test]
fn nested_rules_are_kept_where_the_position_permits_them() {
    let text = "@media print { @font-face { } .a { } }";
    assert_eq!(css(&parse(text).unwrap()), "@media print {\n  @font-face { }\n  .a { }\n}");
    let in_style = CssRuleTypes::from(CssRuleType::Style);
    let rule = parse_in(text, &[], 0, in_style).unwrap();
    assert_eq!(rule.rule_type(), CssRuleType::Media);
    assert_eq!(css(&rule), "@media print {\n  .a { }\n}");
}

#[test]
fn import_rules_can_be_disallowed() {
    let lock = SharedRwLock::new(1);
    let context = InsertRuleContext {
        rule_list: &[],
        index: 0,
        containing_rule_types: CssRuleTypes::default(),
        parse_relative_rule_type: None,
    };
    let result = CssRule::parse(
        "@import url(x);",
        context,
        &sheet(&lock),
        &lock,
        AllowImportRules::No,
    );
    assert_eq!(result.err(), Some(RulesMutateError::Syntax));
    assert!(parse("@import url(x);").is_ok());
}

#[test]
fn rules_must_keep_the_order_of_a_style_sheet() {
    let style = parse(".a { }").unwrap();
    let import = parse("@import url(x);").unwrap();
    let namespace = parse("@namespace x;").unwrap();
    let layer = parse("@layer a;").unwrap();
    let none = CssRuleTypes::default();

    // after a style rule comes the body of the sheet
    let list = [style.clone()];
    assert_eq!(
        parse_in("@import url(y);", &list, 1, none).err(),
        Some(RulesMutateError::HierarchyRequest)
    );
    assert_eq!(
        parse_in("@namespace y;", &list, 1, none).err(),
        Some(RulesMutateError::HierarchyRequest)
    );
    assert!(parse_in(".b { }", &list, 1, none).is_ok());
    assert!(parse_in("@layer b;", &list, 1, none).is_ok());
    assert!(parse_in("@import url(y);", &list, 0, none).is_ok());

    // nothing of the body comes before an import or a namespace
    let list = [import.clone()];
    assert_eq!(
        parse_in(".b { }", &list, 0, none).err(),
        Some(RulesMutateError::HierarchyRequest)
    );
    assert_eq!(
        parse_in("@namespace y;", &list, 0, none).err(),
        Some(RulesMutateError::HierarchyRequest)
    );
    assert!(parse_in("@import url(y);", &list, 0, none).is_ok());
    assert!(parse_in("@layer b;", &list, 0, none).is_ok());
    assert!(parse_in(".b { }", &list, 1, none).is_ok());
    let list = [namespace.clone()];
    assert_eq!(
        parse_in(".b { }", &list, 0, none).err(),
        Some(RulesMutateError::HierarchyRequest)
    );
    assert!(parse_in("@import url(y);", &list, 0, none).is_ok());
    assert!(parse_in("@namespace y;", &list, 0, none).is_ok());
    assert_eq!(
        parse_in("@import url(y);", &list, 1, none).err(),
        Some(RulesMutateError::HierarchyRequest)
    );

    // a layer statement is an early one where an import follows the layers
    let list = [layer.clone(), layer.clone(), import.clone()];
    assert!(parse_in("@layer b;", &list, 0, none).is_ok());
    assert_eq!(
        parse_in("@import url(y);", &list, 0, none).err(),
        Some(RulesMutateError::HierarchyRequest)
    );
    assert_eq!(
        parse_in(".b { }", &list, 0, none).err(),
        Some(RulesMutateError::HierarchyRequest)
    );
    let list = [layer.clone(), style.clone()];
    assert!(parse_in(".b { }", &list, 0, none).is_ok());
    assert!(parse_in("@import url(y);", &list, 0, none).is_ok());
}

#[test]
fn namespace_rule_needs_a_list_of_namespace_rules() {
    let style = parse(".a { }").unwrap();
    let import = parse("@import url(x);").unwrap();
    let namespace = parse("@namespace x;").unwrap();
    let none = CssRuleTypes::default();
    assert_eq!(
        parse_in("@namespace y;", &[style.clone()], 0, none).err(),
        Some(RulesMutateError::InvalidState)
    );
    assert_eq!(
        parse_in("@namespace y;", &[namespace.clone(), style.clone()], 1, none).err(),
        Some(RulesMutateError::InvalidState)
    );
    assert_eq!(
        parse_in("@namespace y;", &[import.clone(), namespace.clone(), style.clone()], 1, none).err(),
        Some(RulesMutateError::InvalidState)
    );
    assert!(parse_in("@namespace y;", &[import.clone()], 1, none).is_ok());
    assert!(parse_in("@namespace y;", &[import.clone(), namespace.clone()], 1, none).is_ok());
    assert!(parse_in("@namespace y;", &[namespace.clone()], 1, none).is_ok());
    assert!(parse_in("@namespace y;", &[namespace.clone()], 0, none).is_ok());
    assert!(parse_in("@namespace y;", &[], 0, none).is_ok());
}

#[test]
fn rule_must_be_permitted_inside_the_rules_around_it() {
    let refused = Some(RulesMutateError::HierarchyRequest);
    let inside = |ty: CssRuleType| CssRuleTypes::from(ty);
    let keyframes = "@keyframes k { from { left: 0 } }";

    assert_eq!(parse_in(keyframes, &[], 0, inside(CssRuleType::Keyframes)).err(), refused);
    assert_eq!(parse_in(".a { }", &[], 0, inside(CssRuleType::Keyframes)).err(), refused);
    assert_eq!(parse_in(".a { }", &[], 0, inside(CssRuleType::FontFace)).err(), refused);
    assert_eq!(parse_in(keyframes, &[], 0, inside(CssRuleType::Style)).err(), refused);
    assert_eq!(parse_in("@font-face { }", &[], 0, inside(CssRuleType::Style)).err(), refused);
    assert_eq!(parse_in("@import url(x);", &[], 0, inside(CssRuleType::Media)).err(), refused);
    assert_eq!(parse_in("@namespace x;", &[], 0, inside(CssRuleType::Media)).err(), refused);
    assert_eq!(parse_in(".a { }", &[], 0, inside(CssRuleType::Page)).err(), refused);
    assert_eq!(parse_in("@top-left { }", &[], 0, CssRuleTypes::default()).err(), refused);
    assert_eq!(parse_in("@top-left { }", &[], 0, inside(CssRuleType::Media)).err(), refused);
    let style_in_media = inside(CssRuleType::Media).with(CssRuleType::Style);
    assert_eq!(parse_in(keyframes, &[], 0, style_in_media).err(), refused);

    assert!(parse_in(keyframes, &[], 0, inside(CssRuleType::Media)).is_ok());
    assert!(parse_in(".a { }", &[], 0, inside(CssRuleType::Style)).is_ok());
    assert!(parse_in("@media print { }", &[], 0, inside(CssRuleType::Style)).is_ok());
    assert!(parse_in(".a { }", &[], 0, style_in_media).is_ok());
    assert!(parse_in("@top-left { }", &[], 0, inside(CssRuleType::Page)).is_ok());
    assert_eq!(
        parse_in("@top-left x { content: y }", &[], 0, inside(CssRuleType::Page)).err(),
        Some(RulesMutateError::Syntax)
    );
}

#[test]
fn refused_rule_is_not_taken_for_declarations() {
    // the text would do as declarations, but its head is that of a rule
    // that may not stand inside a style rule
    let inside_style = CssRuleTypes::from(CssRuleType::Style);
    assert_eq!(
        parse_in("@import url(x);", &[], 0, inside_style).err(),
        Some(RulesMutateError::HierarchyRequest)
    );
    assert_eq!(
        parse_in("@page { margin: 0 }", &[], 0, inside_style).err(),
        Some(RulesMutateError::HierarchyRequest)
    );
}

#[test]
fn declarations_are_taken_inside_style_and_page_rules_only() {
    let text = "width: 10px; height: 20px";
    for ty in [CssRuleType::Style, CssRuleType::Page] {
        let rule = parse_in(text, &[], 0, CssRuleTypes::from(ty)).unwrap();
        assert_eq!(rule.rule_type(), CssRuleType::NestedDeclarations);
        assert_eq!(css(&rule), "width: 10px; height: 20px;");
    }
    let in_media = CssRuleTypes::from(CssRuleType::Media);
    assert_eq!(parse_in(text, &[], 0, in_media).err(), Some(RulesMutateError::Syntax));
    assert_eq!(parse(text).err(), Some(RulesMutateError::Syntax));
    let in_style = CssRuleTypes::from(CssRuleType::Style);
    for no_declarations in ["", " ; ", "width", "width: 10px; height", "width: 10px; }"] {
        assert_eq!(
            parse_in(no_declarations, &[], 0, in_style).err(),
            Some(RulesMutateError::Syntax),
            "{}",
            no_declarations
        );
    }
}

#[test]
fn text_that_is_a_rule_by_itself_keeps_its_type_where_it_is_inserted() {
    let texts = [
        (".a { color: red }", CssRuleType::Style),
        ("@media print { }", CssRuleType::Media),
        ("@supports (x: y) { }", CssRuleType::Supports),
        ("@layer a { }", CssRuleType::LayerBlock),
    ];
    let contexts = [
        CssRuleTypes::default(),
        CssRuleTypes::from(CssRuleType::Style),
        CssRuleTypes::from(CssRuleType::Media),
        CssRuleTypes::from(CssRuleType::Media).with(CssRuleType::Style),
    ];
    for (text, rule_type) in texts {
        assert_eq!(parse(text).unwrap().rule_type(), rule_type);
        for containing in contexts {
            let rule = parse_in(text, &[], 0, containing).unwrap();
            assert_eq!(rule.rule_type(), rule_type);
        }
    }
}

#[test]
fn text_outside_ascii_is_kept_in_preludes_and_values() {
    round_trip(
        ".caf\u{e9} > \u{1f600} { content: \u{fc}ber \u{2192} ; }",
        CssRuleType::Style,
        ".caf\u{e9} > \u{1f600} { content: \u{fc}ber \u{2192}; }",
    );
    round_trip(
        "@media \u{e9}cran { .a { b: \u{4e2d}\u{6587} } }",
        CssRuleType::Media,
        "@media \u{e9}cran {\n  .a { b: \u{4e2d}\u{6587}; }\n}",
    );
    // names are made of ASCII letters, digits, `-` and `_`
    assert_eq!(parse(".a { col\u{f6}r: red }").err(), Some(RulesMutateError::Syntax));
    assert_eq!(parse("@m\u{e9}dia { }").err(), Some(RulesMutateError::Syntax));
}

#[test]
fn keywords_are_read_as_they_are_written() {
    assert_eq!(parse("@MEDIA print { }").err(), Some(RulesMutateError::Syntax));
    assert_eq!(parse("@Import url(x);").err(), Some(RulesMutateError::Syntax));
    assert!(parse("@media PRINT { }").is_ok());
}

#[test]
fn braces_and_semicolons_end_text_wherever_they_stand() {
    // a semicolon ends the prelude of an at-rule, so no block can follow
    assert_eq!(
        parse("@media (a;b) { }").err(),
        Some(RulesMutateError::Syntax)
    );
    // a brace inside a value starts a block
    assert_eq!(parse(".a { content: {x} }").err(), Some(RulesMutateError::Syntax));
    // white space of every kind is skipped
    round_trip(
        "\t\r\n\u{c} .a\t{\r\ncolor\t:\u{c}red\n}\n",
        CssRuleType::Style,
        ".a { color: red; }",
    );
}
