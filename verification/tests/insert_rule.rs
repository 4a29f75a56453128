use std::sync::Arc;

use style::shared_lock::{Locked, SharedRwLock};
use style::stylesheets::input::SourceLocation;
use style::stylesheets::rule_parser::InsertRuleContext;
use style::stylesheets::{
    AllowImportRules, CssRule, CssRuleType, CssRuleTypes, CssRules, Namespaces, Origin, QuirksMode,
    RulesMutateError, StylesheetContents, UrlExtraData,
};

fn contents(lock: &SharedRwLock) -> StylesheetContents {
    StylesheetContents {
        rules: Arc::new(lock.wrap(CssRules(Vec::new()))),
        origin: Origin::Author,
        url_data: UrlExtraData::new(0x1000),
        namespaces: Namespaces::new(),
        quirks_mode: QuirksMode::NoQuirks,
    }
}

fn insert(
    rules: &mut Locked<CssRules>,
    lock: &SharedRwLock,
    text: &str,
    index: usize,
    containing: CssRuleTypes,
) -> Result<CssRule, RulesMutateError> {
    rules.insert_rule(
        lock,
        text,
        &contents(lock),
        index,
        containing,
        None,
        AllowImportRules::Yes,
    )
}

#[test]
fn insert_style_rule_into_empty_list() {
    let lock = SharedRwLock::new(1);
    let mut rules = lock.wrap(CssRules(Vec::new()));
    let rule = insert(&mut rules, &lock, ".a { color: red; }", 0, CssRuleTypes::default()).unwrap();
    assert_eq!(rule.rule_type(), CssRuleType::Style);
    let guard = lock.read();
    assert_eq!(rule.to_css_string(&guard), ".a { color: red; }");
    let list = rules.read_with(&guard);
    assert_eq!(list.len(), 1);
    assert_eq!(list.0[0].rule_type(), CssRuleType::Style);
    assert_eq!(list.0[0].to_css_string(&guard), ".a { color: red; }");
}

#[test]
fn bare_declaration_inside_style_rule_becomes_nested_declarations() {
    let lock = SharedRwLock::new(1);
    let mut rules = lock.wrap(CssRules(Vec::new()));
    let containing = CssRuleTypes::from(CssRuleType::Style);
    let rule = insert(&mut rules, &lock, "width: 10px;", 0, containing).unwrap();
    assert_eq!(rule.rule_type(), CssRuleType::NestedDeclarations);
    let guard = lock.read();
    match &rule {
        CssRule::NestedDeclarations(cell) => {
            let block = cell.read_with(&guard).block.read_with(&guard);
            assert_eq!(block.len(), 1);
            assert_eq!(block.declarations()[0].name, "width");
            assert_eq!(block.declarations()[0].value, "10px");
        }
        _ => panic!("not a nested-declarations rule"),
    }
    assert_eq!(rule.to_css_string(&guard), "width: 10px;");
}

#[test]
fn bare_declaration_at_top_level_is_a_syntax_error() {
    let lock = SharedRwLock::new(1);
    let mut rules = lock.wrap(CssRules(Vec::new()));
    let result = insert(&mut rules, &lock, "width: 10px;", 0, CssRuleTypes::default());
    assert_eq!(result.err(), Some(RulesMutateError::Syntax));
    assert_eq!(rules.read_with(&lock.read()).len(), 0);
}

#[test]
fn index_beyond_the_list_is_an_index_size_error() {
    let lock = SharedRwLock::new(1);
    let mut rules = lock.wrap(CssRules(Vec::new()));
    for i in 0..3 {
        insert(&mut rules, &lock, ".a { color: red; }", i, CssRuleTypes::default()).unwrap();
    }
    let result = insert(&mut rules, &lock, ".b { color: blue; }", 5, CssRuleTypes::default());
    assert_eq!(result.err(), Some(RulesMutateError::IndexSize));
    let result = insert(&mut rules, &lock, "not a rule", 5, CssRuleTypes::default());
    assert_eq!(result.err(), Some(RulesMutateError::IndexSize));
    assert_eq!(rules.read_with(&lock.read()).len(), 3);
}

#[test]
fn keyframes_inside_keyframes_is_a_hierarchy_request_error() {
    let lock = SharedRwLock::new(1);
    let mut rules = lock.wrap(CssRules(Vec::new()));
    let containing = CssRuleTypes::from(CssRuleType::Keyframes);
    let result = insert(
        &mut rules,
        &lock,
        "@keyframes spin { from { left: 0; } to { left: 10px; } }",
        0,
        containing,
    );
    assert_eq!(result.err(), Some(RulesMutateError::HierarchyRequest));
    assert_eq!(rules.read_with(&lock.read()).len(), 0);
}

#[test]
fn parsing_for_an_index_beyond_the_list_is_an_index_size_error() {
    let lock = SharedRwLock::new(1);
    let mut rules = lock.wrap(CssRules(Vec::new()));
    for i in 0..3 {
        insert(&mut rules, &lock, ".a { color: red; }", i, CssRuleTypes::default()).unwrap();
    }
    let guard = lock.read();
    let list = rules.read_with(&guard);
    for containing in [CssRuleTypes::default(), CssRuleTypes::from(CssRuleType::Style)] {
        for text in [".b { color: blue; }", "width: 10px;", "not a rule", "@import url(x);", ""] {
            for index in [4, 5, usize::MAX] {
                let context = InsertRuleContext {
                    rule_list: &list.0,
                    index,
                    containing_rule_types: containing,
                    parse_relative_rule_type: None,
                };
                let result =
                    CssRule::parse(text, context, &contents(&lock), &lock, AllowImportRules::Yes);
                assert_eq!(result.err(), Some(RulesMutateError::IndexSize), "{}", text);
            }
        }
    }
    let at_the_end = InsertRuleContext {
        rule_list: &list.0,
        index: 3,
        containing_rule_types: CssRuleTypes::default(),
        parse_relative_rule_type: None,
    };
    assert!(CssRule::parse(".b { }", at_the_end, &contents(&lock), &lock, AllowImportRules::Yes).is_ok());
    assert_eq!(list.len(), 3);
}

#[test]
fn nested_declarations_rule_is_found_at_the_end_of_its_text() {
    let lock = SharedRwLock::new(1);
    let mut rules = lock.wrap(CssRules(Vec::new()));
    let inside = CssRuleTypes::from(CssRuleType::Style);
    let guard = lock.read();
    for (text, line, column) in [
        ("width: 10px;", 0, 13),
        ("width: 10px;\n", 1, 1),
        ("\nwidth: 10px;\nheight: 1px", 2, 12),
    ] {
        let rule = insert(&mut rules, &lock, text, 0, inside).unwrap();
        let CssRule::NestedDeclarations(cell) = &rule else {
            panic!("not a nested-declarations rule");
        };
        assert_eq!(cell.read_with(&guard).source_location, SourceLocation { line, column });
        let copy = rule.deep_clone_with_lock(&SharedRwLock::new(2), &guard);
        let CssRule::NestedDeclarations(cell) = &copy else {
            panic!("not a nested-declarations rule");
        };
        assert_eq!(
            cell.read_with(&SharedRwLock::new(2).read()).source_location,
            SourceLocation { line, column }
        );
    }
}
