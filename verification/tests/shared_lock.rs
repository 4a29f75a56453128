use std::sync::Arc;

use style::properties::PropertyDeclarationBlock;
use style::shared_lock::{LockDomains, SharedRwLock};
use style::stylesheets::rules::{try_style_or_page_rule_to_css, StyleRule};
use style::stylesheets::{CssRule, CssRuleType, CssRules};

#[test]
fn guard_of_the_same_domain_reads_the_cell() {
    let lock = SharedRwLock::new(7);
    let cell = lock.wrap(42u32);
    let guard = lock.read();
    assert!(cell.is_guarded_by(&guard));
    assert_eq!(*cell.read_with(&guard), 42);
    assert_eq!(cell.try_read_with(&guard), Some(&42));
}

#[test]
fn guard_of_another_domain_reads_nothing() {
    let document = SharedRwLock::new(1);
    let other = SharedRwLock::new(2);
    let cell = document.wrap(String::from("rule"));
    let foreign = other.read();
    assert!(!cell.is_guarded_by(&foreign));
    assert_eq!(cell.try_read_with(&foreign), None);
    assert!(!cell.same_lock_as(&other));
    assert!(cell.same_lock_as(&document));
}

#[test]
fn copies_of_a_lock_are_one_domain() {
    let lock = SharedRwLock::new(9);
    let copy = lock;
    assert!(lock.same_lock_as(&copy));
    assert_eq!(copy.id(), 9);
    let cell = lock.wrap(1u8);
    let guard = copy.read();
    assert_eq!(cell.try_read_with(&guard), Some(&1));
    assert!(guard.is_from(&lock));
    assert!(!SharedRwLock::new(10).same_lock_as(&lock));
}

#[test]
fn write_guard_of_the_same_domain_writes_the_cell() {
    let lock = SharedRwLock::new(3);
    let mut cell = lock.wrap(1u32);
    {
        let mut guard = lock.write();
        assert!(guard.is_from(&lock));
        *cell.write_with(&mut guard) = 5;
    }
    assert_eq!(*cell.read_with(&lock.read()), 5);
    assert!(cell.same_lock_as(&lock));
}

#[test]
fn write_guard_of_another_domain_writes_nothing() {
    let lock = SharedRwLock::new(3);
    let other = SharedRwLock::new(4);
    let mut cell = lock.wrap(1u32);
    let mut foreign = other.write();
    assert_eq!(cell.try_write_with(&mut foreign, 9), Some(9));
    assert_eq!(*cell.read_with(&lock.read()), 1);
    let mut guard = lock.write();
    assert_eq!(cell.try_write_with(&mut guard, 9), None);
    assert_eq!(*cell.read_with(&lock.read()), 9);
}

#[test]
fn rule_is_read_with_a_guard_of_its_domain_only() {
    let document = SharedRwLock::new(1);
    let other = SharedRwLock::new(2);
    let inner = CssRule::new_style_or_page(
        CssRuleType::Style,
        ".b".to_string(),
        PropertyDeclarationBlock::new(),
        None,
        &document,
    );
    let rule = CssRule::new_group(
        CssRuleType::Media,
        "print".to_string(),
        CssRules(vec![inner]),
        &document,
    );
    assert!(rule.is_guarded_by(&document.read()));
    assert!(!rule.is_guarded_by(&other.read()));
    assert_eq!(
        rule.try_to_css_string(&document.read()),
        Some("@media print {\n  .b { }\n}".to_string())
    );
    assert_eq!(rule.try_to_css_string(&other.read()), None);
}

#[test]
fn rule_with_a_cell_of_another_domain_inside_is_not_read() {
    let document = SharedRwLock::new(1);
    let other = SharedRwLock::new(2);
    let foreign = CssRule::new_style_or_page(
        CssRuleType::Style,
        ".b".to_string(),
        PropertyDeclarationBlock::new(),
        None,
        &other,
    );
    let mixed = CssRule::Style(Arc::new(document.wrap(StyleRule {
        selectors: ".a".to_string(),
        rules: Some(Arc::new(document.wrap(CssRules(vec![foreign])))),
        block: Arc::new(document.wrap(PropertyDeclarationBlock::new())),
    })));
    assert!(!mixed.is_guarded_by(&document.read()));
    assert!(!mixed.is_guarded_by(&other.read()));
    assert_eq!(mixed.try_to_css_string(&document.read()), None);
    let list = CssRules(vec![mixed]);
    assert!(!list.is_guarded_by(&document.read()));
    assert!(CssRules(Vec::new()).is_guarded_by(&other.read()));
}

#[test]
fn rules_without_cells_are_read_with_any_guard() {
    let document = SharedRwLock::new(1);
    let other = SharedRwLock::new(2);
    let namespace = CssRule::new_statement(CssRuleType::Namespace, "x".to_string(), &document);
    assert!(namespace.is_guarded_by(&other.read()));
    assert_eq!(
        namespace.try_to_css_string(&other.read()),
        Some("@namespace x;".to_string())
    );
    let import = CssRule::new_statement(CssRuleType::Import, "x".to_string(), &document);
    assert!(!import.is_guarded_by(&other.read()));
}

#[test]
fn domains_of_one_source_differ() {
    let mut source = LockDomains::new();
    let first = source.create().unwrap();
    let second = source.create().unwrap();
    let third = source.create().unwrap();
    assert!(!first.same_lock_as(&second));
    assert!(!first.same_lock_as(&third));
    assert!(!second.same_lock_as(&third));
    assert_eq!((first.id(), second.id(), third.id()), (0, 1, 2));
    let cell = first.wrap(1u8);
    assert_eq!(cell.try_read_with(&second.read()), None);
    assert_eq!(cell.try_read_with(&first.read()), Some(&1));
}

#[test]
fn foreign_guard_gets_no_text_and_no_clone() {
    let document = SharedRwLock::new(1);
    let other = SharedRwLock::new(2);
    let rule = CssRule::new_style_or_page(
        CssRuleType::Style,
        ".a".to_string(),
        PropertyDeclarationBlock::new(),
        None,
        &document,
    );
    let mut dest = String::from("kept");
    assert!(!rule.try_to_css(&other.read(), &mut dest));
    assert_eq!(dest, "kept");
    assert!(rule.try_to_css(&document.read(), &mut dest));
    assert_eq!(dest, "kept.a { }");
    assert!(rule.try_deep_clone_with_lock(&other, &other.read()).is_none());
    let copy = rule.try_deep_clone_with_lock(&other, &document.read()).unwrap();
    assert_eq!(copy.try_to_css_string(&other.read()), Some(".a { }".to_string()));

    let block = document.wrap(PropertyDeclarationBlock::new());
    let list = Arc::new(other.wrap(CssRules(Vec::new())));
    let mut dest = String::from("kept");
    assert!(!try_style_or_page_rule_to_css(None, &block, &other.read(), &mut dest));
    assert!(!try_style_or_page_rule_to_css(Some(&list), &block, &document.read(), &mut dest));
    assert_eq!(dest, "kept");
    assert!(try_style_or_page_rule_to_css(None, &block, &document.read(), &mut dest));
    assert_eq!(dest, "kept{ }");
}
