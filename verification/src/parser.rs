//! The context in which rule text is parsed.
use vstd::prelude::*;
use crate::stylesheets::stylesheet::{Namespaces, Origin, QuirksMode};
use crate::stylesheets::url_extra_data::UrlExtraData;
use crate::stylesheets::{CssRuleType, CssRuleTypes};

verus! {

/// Whether selectors are parsed relative to something, and to what.
#[derive(Clone, Copy, Debug, PartialEq, Eq, Structural)]
pub enum ParseRelative {
    /// Selectors are not relative.
    No,
    /// Selectors are relative to the selectors of the style rule they are
    /// nested in.
    ForNesting,
    /// Selectors are relative to the root of the scope they stand in.
    ForScope,
}

/// The rules that enclose the position that is being parsed.
#[derive(Clone, Copy, Debug, PartialEq, Eq, Structural)]
pub struct NestingContext {
    /// The types of all the rules that enclose the position.
    pub rule_types: CssRuleTypes,
    /// How selectors at the position are relative.
    pub parse_relative: ParseRelative,
}

/// How selectors are relative directly inside a rule of the given type.
pub open spec fn spec_parse_relative_for(rule_type: CssRuleType) -> ParseRelative {
    match rule_type {
        CssRuleType::Scope => ParseRelative::ForScope,
        CssRuleType::Style => ParseRelative::ForNesting,
        _ => ParseRelative::No,
    }
}

impl NestingContext {
    /// How selectors are relative directly inside a rule of the given type.
    pub fn parse_relative_for(rule_type: CssRuleType) -> (relative: ParseRelative)
        ensures
            relative == spec_parse_relative_for(rule_type),
    {
        match rule_type {
            CssRuleType::Scope => ParseRelative::ForScope,
            CssRuleType::Style => ParseRelative::ForNesting,
            _ => ParseRelative::No,
        }
    }

    /// The context inside rules of the given types, where
    /// `parse_nested_rule_type` says what selectors are relative to.
    pub fn new(rule_types: CssRuleTypes, parse_nested_rule_type: Option<CssRuleType>) -> (context:
        NestingContext)
        ensures
            context.rule_types == rule_types,
            context.parse_relative == match parse_nested_rule_type {
                Some(rule_type) => spec_parse_relative_for(rule_type),
                None => ParseRelative::No,
            },
    {
        let parse_relative = match parse_nested_rule_type {
            Some(rule_type) => NestingContext::parse_relative_for(rule_type),
            None => ParseRelative::No,
        };
        NestingContext { rule_types, parse_relative }
    }

    /// The context directly inside a rule of the given type, or outside any
    /// rule.
    pub fn new_from_rule(rule_type: Option<CssRuleType>) -> (context: NestingContext)
        ensures
            context.rule_types == match rule_type {
                Some(ty) => CssRuleTypes::spec_from_bits(ty.spec_bit()),
                None => CssRuleTypes::spec_from_bits(0),
            },
            context.parse_relative == match rule_type {
                Some(ty) => spec_parse_relative_for(ty),
                None => ParseRelative::No,
            },
    {
        let rule_types = match rule_type {
            Some(ty) => CssRuleTypes::from_bits(ty.bit()),
            None => CssRuleTypes::from_bits(0),
        };
        NestingContext::new(rule_types, rule_type)
    }
}

/// The data that the parser needs from outside the text.
#[derive(Clone, Copy, Debug)]
pub struct ParserContext<'a> {
    /// The origin of the style sheet.
    pub stylesheet_origin: Origin,
    /// The data to resolve URLs with.
    pub url_data: UrlExtraData,
    /// The quirks mode of the document.
    pub quirks_mode: QuirksMode,
    /// The namespaces that the style sheet declares.
    pub namespaces: &'a Namespaces,
    /// The rules that enclose the position that is being parsed.
    pub nesting_context: NestingContext,
}

impl<'a> ParserContext<'a> {
    /// The context for a sheet of the given origin, URL data, quirks mode and
    /// namespaces, at a position directly inside a rule of type `rule_type`,
    /// or outside any rule.
    pub fn new(
        stylesheet_origin: Origin,
        url_data: &UrlExtraData,
        rule_type: Option<CssRuleType>,
        quirks_mode: QuirksMode,
        namespaces: &'a Namespaces,
    ) -> (context: ParserContext<'a>)
        ensures
            context.stylesheet_origin == stylesheet_origin,
            context.url_data == *url_data,
            context.quirks_mode == quirks_mode,
            context.namespaces == namespaces,
            context.nesting_context.rule_types == match rule_type {
                Some(ty) => CssRuleTypes::spec_from_bits(ty.spec_bit()),
                None => CssRuleTypes::spec_from_bits(0),
            },
            context.nesting_context.parse_relative == match rule_type {
                Some(ty) => spec_parse_relative_for(ty),
                None => ParseRelative::No,
            },
    {
        ParserContext {
            stylesheet_origin,
            url_data: *url_data,
            quirks_mode,
            namespaces,
            nesting_context: NestingContext::new_from_rule(rule_type),
        }
    }

    /// Whether the position is inside a style rule.
    pub fn in_style_rule(&self) -> (inside: bool)
        ensures
            inside == self.nesting_context.rule_types.has(CssRuleType::Style),
    {
        self.nesting_context.rule_types.contains(CssRuleType::Style)
    }

    /// Whether the position is inside a page rule.
    pub fn in_page_rule(&self) -> (inside: bool)
        ensures
            inside == self.nesting_context.rule_types.has(CssRuleType::Page),
    {
        self.nesting_context.rule_types.contains(CssRuleType::Page)
    }
}

} // verus!
