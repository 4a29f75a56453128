use style::parser::{NestingContext, ParseRelative, ParserContext};
use style::stylesheets::rule_parser::{InsertRuleContext, State};
use style::stylesheets::{CssRuleType, CssRuleTypes, Namespaces, Origin, QuirksMode, UrlExtraData};

#[test]
fn selectors_are_relative_inside_style_and_scope_rules() {
    assert_eq!(NestingContext::parse_relative_for(CssRuleType::Style), ParseRelative::ForNesting);
    assert_eq!(NestingContext::parse_relative_for(CssRuleType::Scope), ParseRelative::ForScope);
    assert_eq!(NestingContext::parse_relative_for(CssRuleType::Media), ParseRelative::No);
    let types = CssRuleTypes::from(CssRuleType::Media).with(CssRuleType::Style);
    let context = NestingContext::new(types, Some(CssRuleType::Style));
    assert_eq!(context.rule_types, types);
    assert_eq!(context.parse_relative, ParseRelative::ForNesting);
    assert_eq!(NestingContext::new(types, None).parse_relative, ParseRelative::No);
    let context = NestingContext::new_from_rule(Some(CssRuleType::Scope));
    assert_eq!(context.rule_types, CssRuleTypes::from(CssRuleType::Scope));
    assert_eq!(context.parse_relative, ParseRelative::ForScope);
    let context = NestingContext::new_from_rule(None);
    assert!(context.rule_types.is_empty());
    assert_eq!(context.parse_relative, ParseRelative::No);
}

#[test]
fn parser_context_holds_what_it_was_made_with() {
    let url_data = UrlExtraData::new(0x40);
    let namespaces = Namespaces {
        default: Some("http://www.w3.org/1999/xhtml".to_string()),
        prefixes: vec![("svg".to_string(), "http://www.w3.org/2000/svg".to_string())],
    };
    let context = ParserContext::new(
        Origin::User,
        &url_data,
        Some(CssRuleType::Page),
        QuirksMode::Quirks,
        &namespaces,
    );
    assert_eq!(context.namespaces.default, namespaces.default);
    assert_eq!(context.namespaces.prefixes, namespaces.prefixes);
    let copy = namespaces.duplicate();
    assert_eq!(copy.default, namespaces.default);
    assert_eq!(copy.prefixes, namespaces.prefixes);
    assert_eq!(context.stylesheet_origin, Origin::User);
    assert_eq!(context.url_data, url_data);
    assert_eq!(context.quirks_mode, QuirksMode::Quirks);
    assert!(context.in_page_rule());
    assert!(!context.in_style_rule());
    let context =
        ParserContext::new(Origin::Author, &url_data, None, QuirksMode::NoQuirks, &namespaces);
    assert!(!context.in_page_rule());
    assert!(!context.in_style_rule());
}

#[test]
fn states_follow_the_order_of_a_style_sheet() {
    let order = [State::Start, State::EarlyLayers, State::Imports, State::Namespaces, State::Body];
    for pair in order.windows(2) {
        assert!(pair[0].rank() < pair[1].rank());
    }
    let context = InsertRuleContext {
        rule_list: &[],
        index: 0,
        containing_rule_types: CssRuleTypes::default(),
        parse_relative_rule_type: None,
    };
    assert_eq!(context.max_rule_state_at_index(0), State::Body);
    assert!(!context.has_other_than_namespace());
}
