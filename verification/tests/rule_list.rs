use std::sync::Arc;

use style::shared_lock::SharedRwLock;
use style::stylesheets::{
    AllowImportRules, CssRuleType, CssRuleTypes, CssRules, Namespaces, Origin, QuirksMode, RulesMutateError,
    StylesheetContents, UrlExtraData,
};

fn list_of(lock: &SharedRwLock, texts: &[&str]) -> CssRules {
    let sheet = StylesheetContents {
        rules: Arc::new(lock.wrap(CssRules(Vec::new()))),
        origin: Origin::UserAgent,
        url_data: UrlExtraData::from_sheet_id(0),
        namespaces: Namespaces::new(),
        quirks_mode: QuirksMode::Quirks,
    };
    let mut rules = lock.wrap(CssRules::new(Vec::new()));
    for text in texts {
        let index = rules.read_with(&lock.read()).len();
        rules
            .insert_rule(lock, text, &sheet, index, CssRuleTypes::default(), None, AllowImportRules::Yes)
            .unwrap();
    }
    CssRules(rules.read_with(&lock.read()).0.clone())
}

fn types(list: &CssRules) -> Vec<CssRuleType> {
    list.0.iter().map(|rule| rule.rule_type()).collect()
}

#[test]
fn inserted_rule_stands_at_its_index() {
    let lock = SharedRwLock::new(1);
    let sheet = StylesheetContents {
        rules: Arc::new(lock.wrap(CssRules(Vec::new()))),
        origin: Origin::User,
        url_data: UrlExtraData::new(0x10),
        namespaces: Namespaces::new(),
        quirks_mode: QuirksMode::LimitedQuirks,
    };
    let mut rules = lock.wrap(list_of(&lock, &[".a { }", ".c { }"]));
    let none = CssRuleTypes::default();
    let new_rule = rules
        .insert_rule(&lock, ".b { x: y }", &sheet, 1, none, None, AllowImportRules::Yes)
        .unwrap();
    assert_eq!(new_rule.to_css_string(&lock.read()), ".b { x: y; }");
    rules
        .insert_rule(&lock, "@media print { }", &sheet, 3, none, None, AllowImportRules::Yes)
        .unwrap();
    rules
        .insert_rule(&lock, "@import url(x);", &sheet, 0, none, None, AllowImportRules::Yes)
        .unwrap();
    let guard = lock.read();
    let list = rules.read_with(&guard);
    let css: Vec<String> = list.0.iter().map(|rule| rule.to_css_string(&guard)).collect();
    assert_eq!(
        css,
        ["@import url(x);", ".a { }", ".b { x: y; }", ".c { }", "@media print {\n}"]
    );
    assert!(rules.same_lock_as(&lock));
}

#[test]
fn refused_insertion_leaves_the_list_as_it_is() {
    let lock = SharedRwLock::new(1);
    let sheet = StylesheetContents {
        rules: Arc::new(lock.wrap(CssRules(Vec::new()))),
        origin: Origin::Author,
        url_data: UrlExtraData::new(0x10),
        namespaces: Namespaces::new(),
        quirks_mode: QuirksMode::NoQuirks,
    };
    let mut rules = lock.wrap(list_of(&lock, &[".a { }", ".b { }"]));
    let none = CssRuleTypes::default();
    let cases = [
        (".c { }", 3, RulesMutateError::IndexSize),
        (".c { }", usize::MAX, RulesMutateError::IndexSize),
        (".c {", 1, RulesMutateError::Syntax),
        ("@import url(x);", 2, RulesMutateError::HierarchyRequest),
        ("@namespace x;", 0, RulesMutateError::InvalidState),
        ("@namespace x;", 2, RulesMutateError::HierarchyRequest),
    ];
    for (text, index, error) in cases {
        let result = rules.insert_rule(&lock, text, &sheet, index, none, None, AllowImportRules::Yes);
        assert_eq!(result.err(), Some(error), "{}", text);
        assert_eq!(
            types(rules.read_with(&lock.read())),
            [CssRuleType::Style, CssRuleType::Style]
        );
    }
}

#[test]
fn remove_rule_takes_the_rule_at_the_index() {
    let lock = SharedRwLock::new(1);
    let mut list = list_of(&lock, &["@import url(x);", ".a { }", "@media print { }"]);
    assert_eq!(list.remove_rule(1), Ok(()));
    assert_eq!(types(&list), [CssRuleType::Import, CssRuleType::Media]);
    assert_eq!(list.remove_rule(1), Ok(()));
    assert_eq!(types(&list), [CssRuleType::Import]);
    assert_eq!(list.remove_rule(0), Ok(()));
    assert!(list.is_empty());
}

#[test]
fn remove_rule_refuses_an_index_that_is_no_position_of_a_rule() {
    let lock = SharedRwLock::new(1);
    let mut list = list_of(&lock, &[".a { }", ".b { }"]);
    assert_eq!(list.remove_rule(2), Err(RulesMutateError::IndexSize));
    assert_eq!(list.remove_rule(usize::MAX), Err(RulesMutateError::IndexSize));
    assert_eq!(list.len(), 2);
    assert_eq!(CssRules::new(Vec::new()).remove_rule(0), Err(RulesMutateError::IndexSize));
}

#[test]
fn remove_rule_keeps_a_namespace_rule_that_other_rules_may_depend_on() {
    let lock = SharedRwLock::new(1);
    let mut list = list_of(&lock, &["@import url(x);", "@namespace x;", ".a { }"]);
    assert!(!list.only_ns_or_import());
    assert_eq!(list.remove_rule(1), Err(RulesMutateError::InvalidState));
    assert_eq!(list.len(), 3);
    assert_eq!(list.remove_rule(2), Ok(()));
    assert!(list.only_ns_or_import());
    assert_eq!(list.remove_rule(1), Ok(()));
    assert_eq!(types(&list), [CssRuleType::Import]);
    assert!(CssRules::new(Vec::new()).only_ns_or_import());
}
