use std::sync::Arc;

use style::properties::{PropertyDeclaration, PropertyDeclarationBlock};
use style::shared_lock::SharedRwLock;
use style::stylesheets::rule_parser::InsertRuleContext;
use style::stylesheets::{
    AllowImportRules, CssRule, CssRuleType, CssRuleTypes, CssRules, Namespaces, Origin, QuirksMode,
    StylesheetContents, UrlExtraData,
};

fn parse(lock: &SharedRwLock, text: &str, containing: CssRuleTypes) -> CssRule {
    let sheet = StylesheetContents {
        rules: Arc::new(lock.wrap(CssRules(Vec::new()))),
        origin: Origin::Author,
        url_data: UrlExtraData::new(0x1000),
        namespaces: Namespaces::new(),
        quirks_mode: QuirksMode::NoQuirks,
    };
    let context = InsertRuleContext {
        rule_list: &[],
        index: 0,
        containing_rule_types: containing,
        parse_relative_rule_type: None,
    };
    CssRule::parse(text, context, &sheet, lock, AllowImportRules::Yes).unwrap()
}

const TEXTS: [&str; 17] = [
    ".a { color: red; .b { color: blue } }",
    "@namespace svg url(x);",
    "@import url(x);",
    "@media print { .a { color: red } @media screen { .b { } } }",
    "@container (width > 1px) { .a { } }",
    "@font-face { src: url(x) }",
    "@font-feature-values F { a: b }",
    "@font-palette-values --p { a: b }",
    "@counter-style c { a: b }",
    "@keyframes spin { from { left: 0 } to { left: 1px } }",
    "@supports (a: b) { .a { } }",
    "@page :first { margin: 0; @top-left { content: x } }",
    "@property --x { syntax: '*' }",
    "@layer a { .a { } }",
    "@layer a, b;",
    "@scope (.a) { .b { } }",
    "@position-try --t { top: 0 }",
];

#[test]
fn deep_clone_says_what_the_original_says() {
    let source = SharedRwLock::new(1);
    let target = SharedRwLock::new(2);
    for text in TEXTS {
        let original = parse(&source, text, CssRuleTypes::default());
        let copy = original.deep_clone_with_lock(&target, &source.read());
        assert_eq!(copy.rule_type(), original.rule_type());
        assert_eq!(
            copy.to_css_string(&target.read()),
            original.to_css_string(&source.read())
        );
    }
    let inside_style = CssRuleTypes::from(CssRuleType::Style);
    let original = parse(&source, "a: b; c: d", inside_style);
    let copy = original.deep_clone_with_lock(&target, &source.read());
    assert_eq!(copy.rule_type(), CssRuleType::NestedDeclarations);
    assert_eq!(copy.to_css_string(&target.read()), "a: b; c: d;");
}

#[test]
fn cells_of_a_deep_clone_belong_to_the_target_domain() {
    let source = SharedRwLock::new(1);
    let target = SharedRwLock::new(2);
    let original = parse(&source, ".a { color: red; .b { color: blue } }", CssRuleTypes::default());
    let copy = original.deep_clone_with_lock(&target, &source.read());
    let (CssRule::Style(original), CssRule::Style(copy)) = (&original, &copy) else {
        panic!("not style rules");
    };
    assert!(!Arc::ptr_eq(original, copy));
    assert!(original.same_lock_as(&source));
    assert!(copy.same_lock_as(&target));
    assert!(copy.try_read_with(&source.read()).is_none());
    assert!(original.try_read_with(&target.read()).is_none());
    let guard = target.read();
    let rule = copy.read_with(&guard);
    assert!(rule.block.same_lock_as(&target));
    let nested = rule.rules.as_ref().unwrap();
    assert!(nested.same_lock_as(&target));
    let CssRule::Style(inner) = &nested.read_with(&guard).0[0] else {
        panic!("not a style rule");
    };
    assert!(inner.same_lock_as(&target));
    assert!(inner.read_with(&guard).block.same_lock_as(&target));
}

#[test]
fn rules_that_are_never_edited_are_shared_with_the_clone() {
    let source = SharedRwLock::new(1);
    let target = SharedRwLock::new(2);
    for text in [
        "@namespace svg url(x);",
        "@font-feature-values F { a: b }",
        "@font-palette-values --p { a: b }",
        "@property --x { syntax: '*' }",
        "@layer a, b;",
    ] {
        let original = parse(&source, text, CssRuleTypes::default());
        let copy = original.deep_clone_with_lock(&target, &source.read());
        let shared = match (&original, &copy) {
            (CssRule::Namespace(a), CssRule::Namespace(b)) => Arc::ptr_eq(a, b),
            (CssRule::FontFeatureValues(a), CssRule::FontFeatureValues(b)) => Arc::ptr_eq(a, b),
            (CssRule::FontPaletteValues(a), CssRule::FontPaletteValues(b)) => Arc::ptr_eq(a, b),
            (CssRule::Property(a), CssRule::Property(b)) => Arc::ptr_eq(a, b),
            (CssRule::LayerStatement(a), CssRule::LayerStatement(b)) => Arc::ptr_eq(a, b),
            _ => false,
        };
        assert!(shared, "{}", text);
    }
}

#[test]
fn writing_to_a_deep_clone_leaves_the_original_alone() {
    let source = SharedRwLock::new(1);
    let target = SharedRwLock::new(2);
    let original = parse(&source, ".a { color: red; }", CssRuleTypes::default());
    let mut copy = original.deep_clone_with_lock(&target, &source.read());
    {
        let CssRule::Style(cell) = &mut copy else {
            panic!("not a style rule");
        };
        let mut guard = target.write();
        let mut inner_guard = target.write();
        let rule = Arc::get_mut(cell).unwrap().write_with(&mut guard);
        rule.selectors = String::from(".changed");
        let mut block = PropertyDeclarationBlock::new();
        block.push(PropertyDeclaration::new("width".to_string(), "1px".to_string()));
        *Arc::get_mut(&mut rule.block).unwrap().write_with(&mut inner_guard) = block;
    }
    assert_eq!(copy.to_css_string(&target.read()), ".changed { width: 1px; }");
    assert_eq!(original.to_css_string(&source.read()), ".a { color: red; }");
}

#[test]
fn clone_is_one_more_reference_to_the_same_rule() {
    let lock = SharedRwLock::new(1);
    let original = parse(&lock, ".a { color: red; }", CssRuleTypes::default());
    let copy = original.clone();
    let (CssRule::Style(a), CssRule::Style(b)) = (&original, &copy) else {
        panic!("not style rules");
    };
    assert!(Arc::ptr_eq(a, b));
    assert_eq!(copy.to_css_string(&lock.read()), ".a { color: red; }");
}

#[test]
fn deep_clone_of_a_list_clones_every_rule() {
    let source = SharedRwLock::new(1);
    let target = SharedRwLock::new(2);
    let list = CssRules(
        TEXTS
            .iter()
            .map(|text| parse(&source, text, CssRuleTypes::default()))
            .collect(),
    );
    let copy = list.deep_clone_with_lock(&target, &source.read());
    assert_eq!(copy.len(), list.len());
    let mut original_css = String::new();
    list.to_css_block(&source.read(), &mut original_css);
    let mut copy_css = String::new();
    copy.to_css_block(&target.read(), &mut copy_css);
    assert_eq!(copy_css, original_css);
}
