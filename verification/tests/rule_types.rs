use style::stylesheets::{CorsMode, CssRuleType, CssRuleTypes, RulesMutateError};

const ALL: [CssRuleType; 22] = [
    CssRuleType::Style,
    CssRuleType::Import,
    CssRuleType::Media,
    CssRuleType::FontFace,
    CssRuleType::Page,
    CssRuleType::Keyframes,
    CssRuleType::Keyframe,
    CssRuleType::Margin,
    CssRuleType::Namespace,
    CssRuleType::CounterStyle,
    CssRuleType::Supports,
    CssRuleType::Document,
    CssRuleType::FontFeatureValues,
    CssRuleType::LayerBlock,
    CssRuleType::LayerStatement,
    CssRuleType::Container,
    CssRuleType::FontPaletteValues,
    CssRuleType::Property,
    CssRuleType::Scope,
    CssRuleType::StartingStyle,
    CssRuleType::PositionTry,
    CssRuleType::NestedDeclarations,
];

#[test]
fn rule_type_values_are_the_cssom_numbers() {
    assert_eq!(CssRuleType::Style.value(), 1);
    assert_eq!(CssRuleType::Import.value(), 3);
    assert_eq!(CssRuleType::Media.value(), 4);
    assert_eq!(CssRuleType::FontFace.value(), 5);
    assert_eq!(CssRuleType::Page.value(), 6);
    assert_eq!(CssRuleType::Keyframes.value(), 7);
    assert_eq!(CssRuleType::Keyframe.value(), 8);
    assert_eq!(CssRuleType::Margin.value(), 9);
    assert_eq!(CssRuleType::Namespace.value(), 10);
    assert_eq!(CssRuleType::CounterStyle.value(), 11);
    assert_eq!(CssRuleType::Supports.value(), 12);
    assert_eq!(CssRuleType::Document.value(), 13);
    assert_eq!(CssRuleType::FontFeatureValues.value(), 14);
    assert_eq!(CssRuleType::LayerBlock.value(), 16);
    assert_eq!(CssRuleType::LayerStatement.value(), 17);
    assert_eq!(CssRuleType::Container.value(), 18);
    assert_eq!(CssRuleType::FontPaletteValues.value(), 19);
    assert_eq!(CssRuleType::Property.value(), 20);
    assert_eq!(CssRuleType::Scope.value(), 21);
    assert_eq!(CssRuleType::StartingStyle.value(), 22);
    assert_eq!(CssRuleType::PositionTry.value(), 23);
    assert_eq!(CssRuleType::NestedDeclarations.value(), 24);
}

#[test]
fn rule_type_from_value_inverts_value() {
    for ty in ALL {
        assert_eq!(CssRuleType::from_value(ty.value()), Some(ty));
    }
    assert_eq!(CssRuleType::from_value(0), None);
    assert_eq!(CssRuleType::from_value(2), None);
    assert_eq!(CssRuleType::from_value(15), None);
    assert_eq!(CssRuleType::from_value(25), None);
    assert_eq!(CssRuleType::from_value(u32::MAX), None);
}

#[test]
fn bit_is_one_shifted_by_the_value() {
    assert_eq!(CssRuleType::Style.bit(), 2);
    assert_eq!(CssRuleType::Import.bit(), 8);
    assert_eq!(CssRuleType::Media.bit(), 16);
    assert_eq!(CssRuleType::NestedDeclarations.bit(), 1 << 24);
    for ty in ALL {
        assert_eq!(ty.bit(), 1u32 << ty.value());
    }
}

#[test]
fn bits_of_different_rule_types_are_disjoint() {
    for a in ALL {
        for b in ALL {
            assert_eq!(a.bit() & b.bit() != 0, a == b);
        }
    }
}

#[test]
fn default_set_is_empty() {
    let set = CssRuleTypes::default();
    assert!(set.is_empty());
    assert_eq!(set.bits(), 0);
    for ty in ALL {
        assert!(!set.contains(ty));
    }
}

#[test]
fn set_from_rule_type_holds_that_type_only() {
    let set = CssRuleTypes::from(CssRuleType::Media);
    assert_eq!(set.bits(), 16);
    assert!(!set.is_empty());
    for ty in ALL {
        assert_eq!(set.contains(ty), ty == CssRuleType::Media);
    }
}

#[test]
fn insert_adds_one_type_and_keeps_the_rest() {
    let mut set = CssRuleTypes::from(CssRuleType::Style);
    set.insert(CssRuleType::Page);
    assert_eq!(set.bits(), 2 | 64);
    assert!(set.contains(CssRuleType::Style));
    assert!(set.contains(CssRuleType::Page));
    assert!(!set.contains(CssRuleType::Media));
    set.insert(CssRuleType::Page);
    assert_eq!(set.bits(), 2 | 64);
}

#[test]
fn with_gives_the_larger_set_and_leaves_the_set_alone() {
    let set = CssRuleTypes::from(CssRuleType::Style);
    let larger = set.with(CssRuleType::Scope);
    assert_eq!(set.bits(), 2);
    assert_eq!(larger.bits(), 2 | (1 << 21));
}

#[test]
fn from_bits_keeps_the_bits() {
    assert_eq!(CssRuleTypes::from_bits(0).bits(), 0);
    assert_eq!(CssRuleTypes::from_bits(0xdead_beef).bits(), 0xdead_beef);
    assert_eq!(CssRuleTypes::from_bits(u32::MAX).bits(), u32::MAX);
    assert_eq!(CssRuleTypes::from_bits(16), CssRuleTypes::from(CssRuleType::Media));
}

#[test]
fn intersects_is_true_for_a_common_bit() {
    let style = CssRuleTypes::from(CssRuleType::Style);
    let page = CssRuleTypes::from(CssRuleType::Page);
    let both = style.with(CssRuleType::Page);
    assert!(!style.intersects(page));
    assert!(style.intersects(both));
    assert!(page.intersects(both));
    assert!(!CssRuleTypes::default().intersects(both));
    assert!(!both.intersects(CssRuleTypes::default()));
    // a bit that stands for no rule type counts as well
    assert!(CssRuleTypes::from_bits(1).intersects(CssRuleTypes::from_bits(1)));
}

#[test]
fn important_is_forbidden_in_position_try_and_keyframe() {
    let set = CssRuleTypes::important_forbidden();
    assert_eq!(set.bits(), (1 << 23) | (1 << 8));
    for ty in ALL {
        assert_eq!(
            set.contains(ty),
            ty == CssRuleType::PositionTry || ty == CssRuleType::Keyframe
        );
    }
}

#[test]
fn cors_modes_and_errors_compare_by_variant() {
    assert_ne!(CorsMode::NoCors, CorsMode::Anonymous);
    assert_eq!(CorsMode::Anonymous, CorsMode::Anonymous);
    let errors = [
        RulesMutateError::Syntax,
        RulesMutateError::IndexSize,
        RulesMutateError::HierarchyRequest,
        RulesMutateError::InvalidState,
    ];
    for (i, a) in errors.iter().enumerate() {
        for (j, b) in errors.iter().enumerate() {
            assert_eq!(a == b, i == j);
        }
    }
}
