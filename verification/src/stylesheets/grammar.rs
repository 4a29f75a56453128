//! The grammar of rule text.
//!
//! A rule is read from a sequence of characters. This grammar knows the frame
//! of a rule and leaves the text of selectors, conditions and values as it
//! finds it:
//!
//! - a qualified rule is a prelude, `{`, a body and `}`, and is a style rule;
//! - an at-rule is `@`, a name, a prelude, and either `;` or `{`, a body and
//!   `}`; its name and its end decide its type;
//! - a declaration is a name, `:`, and a value up to `;` or to the end of its
//!   block;
//! - a prelude or a value ends before the first `{`, `}` or `;`, and white
//!   space around it does not belong to it;
//! - a rule that is nested where rules of its type are not permitted is read
//!   and left out, and the rule around it stands without it.
//!
//! Comments, quoted strings and escapes are not known to this grammar: a
//! brace or a semicolon ends a prelude or a value wherever it stands. Names
//! are made of ASCII letters, digits, `-` and `_`, and the names of at-rules
//! are read as they are written, in lower case.
use vstd::prelude::*;
use crate::properties::DeclarationView;
use crate::stylesheets::rule_view::{spec_body_kind, BodyKind, RuleView};
use crate::stylesheets::{CssRuleType, CssRuleTypes};

verus! {

/// The classes of characters that a scan runs over.
#[derive(Clone, Copy, Debug, PartialEq, Eq, Structural)]
pub enum CharClass {
    /// Space, tab, line feed, carriage return and form feed.
    Whitespace,
    /// Letters, digits, `-` and `_`: what names are made of.
    Name,
    /// Everything but `{`, `}` and `;`.
    Text,
}

/// Whether the character is white space.
pub open spec fn spec_is_whitespace(c: char) -> bool {
    c == ' ' || c == '\t' || c == '\n' || c == '\r' || c == '\x0c'
}

/// Whether the character can stand in a name.
pub open spec fn spec_is_name_char(c: char) -> bool {
    ||| 'a' <= c <= 'z'
    ||| 'A' <= c <= 'Z'
    ||| '0' <= c <= '9'
    ||| c == '-'
    ||| c == '_'
}

/// Whether the character ends a prelude or a value.
pub open spec fn spec_is_delimiter(c: char) -> bool {
    c == '{' || c == '}' || c == ';'
}

/// Whether the character belongs to the class.
pub open spec fn spec_in_class(class: CharClass, c: char) -> bool {
    match class {
        CharClass::Whitespace => spec_is_whitespace(c),
        CharClass::Name => spec_is_name_char(c),
        CharClass::Text => !spec_is_delimiter(c),
    }
}

/// Whether the character belongs to the class.
#[verifier::when_used_as_spec(spec_in_class)]
pub fn in_class(class: CharClass, c: char) -> (within: bool)
    ensures
        within == spec_in_class(class, c),
{
    match class {
        CharClass::Whitespace => c == ' ' || c == '\t' || c == '\n' || c == '\r' || c == '\x0c',
        CharClass::Name => ('a' <= c && c <= 'z') || ('A' <= c && c <= 'Z') || ('0' <= c && c <= '9')
            || c == '-' || c == '_',
        CharClass::Text => !(c == '{' || c == '}' || c == ';'),
    }
}

/// The first position at or after `from` whose character is not of the
/// class, or the length of the text where every character from `from` on is
/// of the class.
pub open spec fn skip(s: Seq<char>, from: int, class: CharClass) -> int
    decreases s.len() - from,
{
    if 0 <= from < s.len() && spec_in_class(class, s[from]) {
        skip(s, from + 1, class)
    } else {
        from
    }
}

/// The end of the text that starts at `from` and stops before `to`, without
/// the white space at its end.
pub open spec fn trim_end(s: Seq<char>, from: int, to: int) -> int
    decreases to - from,
{
    if 0 <= from < to <= s.len() && spec_is_whitespace(s[to - 1]) {
        trim_end(s, from, to - 1)
    } else {
        to
    }
}

/// The text from `from`, without the white space at its end, up to `to`.
pub open spec fn trimmed(s: Seq<char>, from: int, to: int) -> Seq<char> {
    s.subrange(from, trim_end(s, from, to))
}

/// A scan runs forward and stays in the text.
pub proof fn lemma_skip_bounds(s: Seq<char>, from: int, class: CharClass)
    requires
        0 <= from <= s.len(),
    ensures
        from <= skip(s, from, class) <= s.len(),
        forall|i: int| from <= i < skip(s, from, class) ==> spec_in_class(class, #[trigger] s[i]),
        skip(s, from, class) < s.len() ==> !spec_in_class(class, s[skip(s, from, class)]),
    decreases s.len() - from,
{
    if from < s.len() && spec_in_class(class, s[from]) {
        lemma_skip_bounds(s, from + 1, class);
    }
}

/// Trimming stays between the two ends.
pub proof fn lemma_trim_end_bounds(s: Seq<char>, from: int, to: int)
    requires
        0 <= from <= to <= s.len(),
    ensures
        from <= trim_end(s, from, to) <= to,
    decreases to - from,
{
    if from < to && spec_is_whitespace(s[to - 1]) {
        lemma_trim_end_bounds(s, from, to - 1);
    }
}

/// The names of the margin boxes of a page.
pub open spec fn spec_is_margin_box(name: Seq<char>) -> bool {
    ||| name == "top-left-corner"@
    ||| name == "top-left"@
    ||| name == "top-center"@
    ||| name == "top-right"@
    ||| name == "top-right-corner"@
    ||| name == "bottom-left-corner"@
    ||| name == "bottom-left"@
    ||| name == "bottom-center"@
    ||| name == "bottom-right"@
    ||| name == "bottom-right-corner"@
    ||| name == "left-top"@
    ||| name == "left-middle"@
    ||| name == "left-bottom"@
    ||| name == "right-top"@
    ||| name == "right-middle"@
    ||| name == "right-bottom"@
}

/// The type of the at-rule with the given name, which ends in a block
/// (`block`) or in a semicolon. `@layer` is the one name that both ends fit:
/// with a block it names a layer block, with a semicolon a layer statement.
/// A name that no rule has, and a name with the wrong end, give nothing.
pub open spec fn spec_at_rule_type(name: Seq<char>, block: bool) -> Option<CssRuleType> {
    if name == "import"@ {
        if block { None } else { Some(CssRuleType::Import) }
    } else if name == "namespace"@ {
        if block { None } else { Some(CssRuleType::Namespace) }
    } else if name == "layer"@ {
        if block { Some(CssRuleType::LayerBlock) } else { Some(CssRuleType::LayerStatement) }
    } else if !block {
        None
    } else if name == "media"@ {
        Some(CssRuleType::Media)
    } else if name == "container"@ {
        Some(CssRuleType::Container)
    } else if name == "supports"@ {
        Some(CssRuleType::Supports)
    } else if name == "-moz-document"@ {
        Some(CssRuleType::Document)
    } else if name == "scope"@ {
        Some(CssRuleType::Scope)
    } else if name == "starting-style"@ {
        Some(CssRuleType::StartingStyle)
    } else if name == "font-face"@ {
        Some(CssRuleType::FontFace)
    } else if name == "font-feature-values"@ {
        Some(CssRuleType::FontFeatureValues)
    } else if name == "font-palette-values"@ {
        Some(CssRuleType::FontPaletteValues)
    } else if name == "counter-style"@ {
        Some(CssRuleType::CounterStyle)
    } else if name == "property"@ {
        Some(CssRuleType::Property)
    } else if name == "position-try"@ {
        Some(CssRuleType::PositionTry)
    } else if name == "keyframes"@ {
        Some(CssRuleType::Keyframes)
    } else if name == "page"@ {
        Some(CssRuleType::Page)
    } else if spec_is_margin_box(name) {
        Some(CssRuleType::Margin)
    } else {
        None
    }
}

/// Whether rules of type `ty` hold nothing that a rule can be nested in.
pub open spec fn spec_holds_no_rules(ty: CssRuleType) -> bool {
    match spec_body_kind(ty) {
        BodyKind::Rules | BodyKind::DeclarationsAndRules => false,
        _ => true,
    }
}

/// Whether one of the rule types in the set holds no rules.
pub open spec fn spec_blocks_nesting(containing: CssRuleTypes) -> bool {
    exists|ty: CssRuleType| containing.has(ty) && spec_holds_no_rules(ty)
}

/// Whether a rule of type `ty` may stand where the rules of the types in
/// `containing` enclose it.
///
/// - Enclosed by nothing, every rule may stand but those that only exist
///   inside another: margin rules, keyframes and nested declarations.
/// - Inside a rule that holds no rules, nothing may stand.
/// - Inside a page rule, only margin rules.
/// - Inside a style rule, directly or with group rules between: style rules
///   and the group rules `@media`, `@container`, `@supports`, `@layer`,
///   `@scope` and `@starting-style`.
/// - Inside group rules alone, every rule that may stand in the body of a
///   stylesheet: all but `@import`, `@namespace`, margin rules, keyframes and
///   nested declarations.
pub open spec fn spec_permitted_in(containing: CssRuleTypes, ty: CssRuleType) -> bool {
    if containing.spec_bits() == 0 {
        ty != CssRuleType::Margin && ty != CssRuleType::Keyframe && ty
            != CssRuleType::NestedDeclarations
    } else if spec_blocks_nesting(containing) {
        false
    } else if containing.has(CssRuleType::Page) {
        ty == CssRuleType::Margin
    } else if containing.has(CssRuleType::Style) {
        ||| ty == CssRuleType::Style
        ||| ty == CssRuleType::Media
        ||| ty == CssRuleType::Container
        ||| ty == CssRuleType::Supports
        ||| ty == CssRuleType::LayerBlock
        ||| ty == CssRuleType::Scope
        ||| ty == CssRuleType::StartingStyle
    } else {
        &&& ty != CssRuleType::Import
        &&& ty != CssRuleType::Namespace
        &&& ty != CssRuleType::Margin
        &&& ty != CssRuleType::Keyframe
        &&& ty != CssRuleType::NestedDeclarations
    }
}

/// The declarations that start at `from`, and where they stop.
///
/// Declarations are read until the end of the text, a `}`, or the start of a
/// rule: an `@`, or text whose first delimiter is a `{`. Semicolons that
/// stand alone are passed over. Text that is neither a declaration nor one of
/// these gives nothing.
pub open spec fn parse_declarations(s: Seq<char>, from: int) -> Option<(Seq<DeclarationView>, int)>
    decreases s.len() - from,
{
    let start = skip(s, from, CharClass::Whitespace);
    if start < from || start >= s.len() || s[start] == '}' {
        Some((Seq::empty(), start))
    } else if s[start] == ';' {
        parse_declarations(s, start + 1)
    } else {
        let stop = skip(s, start, CharClass::Text);
        if s[start] == '@' || (stop < s.len() && s[stop] == '{') {
            Some((Seq::empty(), start))
        } else {
            let name_end = skip(s, start, CharClass::Name);
            let colon = skip(s, name_end, CharClass::Whitespace);
            let value_start = skip(s, colon + 1, CharClass::Whitespace);
            let value_end = skip(s, value_start, CharClass::Text);
            let value = trimmed(s, value_start, value_end);
            if name_end <= start || colon >= s.len() || s[colon] != ':' || value.len() == 0
                || value_end <= start || value_end > s.len() {
                None
            } else {
                let next = if value_end < s.len() && s[value_end] == ';' {
                    value_end + 1
                } else {
                    value_end
                };
                match parse_declarations(s, next) {
                    Some((rest, end)) => Some(
                        (
                            seq![DeclarationView { name: s.subrange(start, name_end), value }] + rest,
                            end,
                        ),
                    ),
                    None => None,
                }
            }
        }
    }
}

/// The declarations of a text that is nothing but declarations; none where
/// the text is anything else.
pub open spec fn parse_declaration_list(s: Seq<char>) -> Seq<DeclarationView> {
    match parse_declarations(s, 0) {
        Some((declarations, end)) if end >= s.len() => declarations,
        _ => Seq::empty(),
    }
}

/// The keyframes that start at `from`, up to the `}` that closes their block
/// or to the end of the text, and where they stop.
pub open spec fn parse_keyframes(s: Seq<char>, from: int) -> Option<(Seq<RuleView>, int)>
    decreases s.len() - from,
{
    let start = skip(s, from, CharClass::Whitespace);
    if start < from || start >= s.len() || s[start] == '}' {
        Some((Seq::empty(), start))
    } else {
        let stop = skip(s, start, CharClass::Text);
        let selector = trimmed(s, start, stop);
        if stop < start || stop >= s.len() || s[stop] != '{' || selector.len() == 0 {
            None
        } else {
            match parse_declarations(s, stop + 1) {
                Some((block, close)) if stop < close < s.len() && s[close] == '}' => {
                    match parse_keyframes(s, close + 1) {
                        Some((rest, end)) => Some(
                            (
                                seq![
                                    RuleView {
                                        rule_type: CssRuleType::Keyframe,
                                        prelude: selector,
                                        block,
                                        rules: None,
                                    },
                                ] + rest,
                                end,
                            ),
                        ),
                        None => None,
                    }
                },
                _ => None,
            }
        }
    }
}

/// The type of the rule that starts at `from`, read from its head alone: the
/// name of an at-rule and whether a block or a semicolon follows its prelude,
/// or a style rule where a block follows a prelude that is not empty.
pub open spec fn rule_head_type(s: Seq<char>, from: int) -> Option<CssRuleType> {
    let start = skip(s, from, CharClass::Whitespace);
    if start < from || start >= s.len() {
        None
    } else if s[start] == '@' {
        let name_end = skip(s, start + 1, CharClass::Name);
        let stop = skip(s, skip(s, name_end, CharClass::Whitespace), CharClass::Text);
        if stop >= s.len() || s[stop] == '}' {
            None
        } else {
            spec_at_rule_type(s.subrange(start + 1, name_end), s[stop] == '{')
        }
    } else {
        let stop = skip(s, start, CharClass::Text);
        if stop >= s.len() || s[stop] != '{' || trimmed(s, start, stop).len() == 0 {
            None
        } else {
            Some(CssRuleType::Style)
        }
    }
}

/// The rule that starts at `from`, and the position after it. `containing`
/// holds the types of the rules around it.
pub open spec fn parse_rule(s: Seq<char>, from: int, containing: CssRuleTypes) -> Option<
    (RuleView, int),
>
    decreases s.len() - from, 0nat,
{
    let start = skip(s, from, CharClass::Whitespace);
    match rule_head_type(s, from) {
        None => None,
        Some(rule_type) => {
            let prelude_start = if rule_type == CssRuleType::Style {
                start
            } else {
                skip(s, skip(s, start + 1, CharClass::Name), CharClass::Whitespace)
            };
            let stop = skip(s, prelude_start, CharClass::Text);
            let text = trimmed(s, prelude_start, stop);
            let prelude = if rule_type == CssRuleType::Margin {
                s.subrange(start + 1, skip(s, start + 1, CharClass::Name))
            } else {
                text
            };
            let inner = containing.spec_with(rule_type);
            if stop < from || stop >= s.len() || (rule_type == CssRuleType::Margin && text.len() > 0) {
                None
            } else {
                match spec_body_kind(rule_type) {
                    BodyKind::Statement => Some(
                        (RuleView { rule_type, prelude, block: Seq::empty(), rules: None }, stop + 1),
                    ),
                    BodyKind::Rules => match parse_rule_list(s, stop + 1, inner) {
                        Some((rules, close)) if close < s.len() && s[close] == '}' => Some(
                            (
                                RuleView { rule_type, prelude, block: Seq::empty(), rules: Some(rules) },
                                close + 1,
                            ),
                        ),
                        _ => None,
                    },
                    BodyKind::Keyframes => match parse_keyframes(s, stop + 1) {
                        Some((rules, close)) if close < s.len() && s[close] == '}' => Some(
                            (
                                RuleView { rule_type, prelude, block: Seq::empty(), rules: Some(rules) },
                                close + 1,
                            ),
                        ),
                        _ => None,
                    },
                    BodyKind::Declarations => match parse_declarations(s, stop + 1) {
                        Some((block, close)) if close < s.len() && s[close] == '}' => Some(
                            (RuleView { rule_type, prelude, block, rules: None }, close + 1),
                        ),
                        _ => None,
                    },
                    BodyKind::DeclarationsAndRules => match parse_declarations(s, stop + 1) {
                        Some((block, next)) if stop < next <= s.len() => match parse_rule_list(s, next, inner) {
                            Some((rules, close)) if close < s.len() && s[close] == '}' => Some(
                                (
                                    RuleView {
                                        rule_type,
                                        prelude,
                                        block,
                                        rules: if rules.len() > 0 {
                                            Some(rules)
                                        } else {
                                            None
                                        },
                                    },
                                    close + 1,
                                ),
                            ),
                            _ => None,
                        },
                        _ => None,
                    },
                    BodyKind::Bare => None,
                }
            }
        },
    }
}

/// The rules that start at `from`, up to the `}` that closes their block or
/// to the end of the text, and where they stop. A rule that is not permitted
/// inside the rules of the types in `containing` is read and passed over: it
/// is no rule of the list. Text that is no rule gives nothing.
pub open spec fn parse_rule_list(s: Seq<char>, from: int, containing: CssRuleTypes) -> Option<
    (Seq<RuleView>, int),
>
    decreases s.len() - from, 1nat,
{
    let start = skip(s, from, CharClass::Whitespace);
    if start < from || start >= s.len() || s[start] == '}' {
        Some((Seq::empty(), start))
    } else {
        match parse_rule(s, start, containing) {
            Some((rule, next)) if start < next <= s.len() => {
                match parse_rule_list(s, next, containing) {
                    Some((rest, end)) => Some(
                        (
                            if spec_permitted_in(containing, rule.rule_type) {
                                seq![rule] + rest
                            } else {
                                rest
                            },
                            end,
                        ),
                    ),
                    None => None,
                }
            },
            _ => None,
        }
    }
}

/// The one rule that the whole text is, apart from white space around it.
pub open spec fn parse_one_rule(s: Seq<char>, containing: CssRuleTypes) -> Option<RuleView> {
    match parse_rule(s, 0, containing) {
        Some((rule, end)) if skip(s, end, CharClass::Whitespace) >= s.len() => Some(rule),
        _ => None,
    }
}

} // verus!
