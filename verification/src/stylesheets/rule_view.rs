//! What a rule says, apart from the cells and locks that hold it, and how
//! that is written as CSS text.
use vstd::prelude::*;
use crate::properties::{declarations_css, DeclarationView};
use crate::stylesheets::CssRuleType;

verus! {

/// The content of a rule: its type, the text before its block or semicolon,
/// its declarations and the rules nested in it.
///
/// `rules` is `None` where the rule has no list of nested rules at all. The
/// keyframes of a `@keyframes` rule stand in `rules`, with the type
/// `Keyframe`.
pub struct RuleView {
    pub rule_type: CssRuleType,
    pub prelude: Seq<char>,
    pub block: Seq<DeclarationView>,
    pub rules: Option<Seq<RuleView>>,
}

/// The shapes that the body of a rule can have.
#[derive(Clone, Copy, Debug, PartialEq, Eq, Structural)]
pub enum BodyKind {
    /// No body: the rule ends with a semicolon.
    Statement,
    /// A block of rules.
    Rules,
    /// A block of declarations.
    Declarations,
    /// A block of declarations followed by rules.
    DeclarationsAndRules,
    /// A block of keyframes.
    Keyframes,
    /// Declarations without a block around them.
    Bare,
}

/// The shape of the body of a rule of the given type.
pub open spec fn spec_body_kind(ty: CssRuleType) -> BodyKind {
    match ty {
        CssRuleType::Import | CssRuleType::Namespace | CssRuleType::LayerStatement => BodyKind::Statement,
        CssRuleType::Media
        | CssRuleType::Container
        | CssRuleType::Supports
        | CssRuleType::Document
        | CssRuleType::LayerBlock
        | CssRuleType::Scope
        | CssRuleType::StartingStyle => BodyKind::Rules,
        CssRuleType::Style | CssRuleType::Page => BodyKind::DeclarationsAndRules,
        CssRuleType::Keyframes => BodyKind::Keyframes,
        CssRuleType::NestedDeclarations => BodyKind::Bare,
        CssRuleType::FontFace
        | CssRuleType::FontFeatureValues
        | CssRuleType::FontPaletteValues
        | CssRuleType::CounterStyle
        | CssRuleType::Property
        | CssRuleType::PositionTry
        | CssRuleType::Margin
        | CssRuleType::Keyframe => BodyKind::Declarations,
    }
}

/// The shape of the body of a rule of the given type.
#[verifier::when_used_as_spec(spec_body_kind)]
pub fn body_kind(ty: CssRuleType) -> (kind: BodyKind)
    ensures
        kind == spec_body_kind(ty),
{
    match ty {
        CssRuleType::Import | CssRuleType::Namespace | CssRuleType::LayerStatement => BodyKind::Statement,
        CssRuleType::Media
        | CssRuleType::Container
        | CssRuleType::Supports
        | CssRuleType::Document
        | CssRuleType::LayerBlock
        | CssRuleType::Scope
        | CssRuleType::StartingStyle => BodyKind::Rules,
        CssRuleType::Style | CssRuleType::Page => BodyKind::DeclarationsAndRules,
        CssRuleType::Keyframes => BodyKind::Keyframes,
        CssRuleType::NestedDeclarations => BodyKind::Bare,
        CssRuleType::FontFace
        | CssRuleType::FontFeatureValues
        | CssRuleType::FontPaletteValues
        | CssRuleType::CounterStyle
        | CssRuleType::Property
        | CssRuleType::PositionTry
        | CssRuleType::Margin
        | CssRuleType::Keyframe => BodyKind::Declarations,
    }
}

/// The at-keyword that opens a rule of the given type. A margin rule opens
/// with `@` and the name of its margin box; style rules, keyframes and nested
/// declarations open with no keyword.
pub open spec fn spec_at_keyword(ty: CssRuleType) -> Seq<char> {
    match ty {
        CssRuleType::Style => ""@,
        CssRuleType::Import => "@import"@,
        CssRuleType::Media => "@media"@,
        CssRuleType::FontFace => "@font-face"@,
        CssRuleType::Page => "@page"@,
        CssRuleType::Keyframes => "@keyframes"@,
        CssRuleType::Keyframe => ""@,
        CssRuleType::Margin => "@"@,
        CssRuleType::Namespace => "@namespace"@,
        CssRuleType::CounterStyle => "@counter-style"@,
        CssRuleType::Supports => "@supports"@,
        CssRuleType::Document => "@-moz-document"@,
        CssRuleType::FontFeatureValues => "@font-feature-values"@,
        CssRuleType::LayerBlock => "@layer"@,
        CssRuleType::LayerStatement => "@layer"@,
        CssRuleType::Container => "@container"@,
        CssRuleType::FontPaletteValues => "@font-palette-values"@,
        CssRuleType::Property => "@property"@,
        CssRuleType::Scope => "@scope"@,
        CssRuleType::StartingStyle => "@starting-style"@,
        CssRuleType::PositionTry => "@position-try"@,
        CssRuleType::NestedDeclarations => ""@,
    }
}

/// The at-keyword that opens a rule of the given type.
pub fn at_keyword(ty: CssRuleType) -> (keyword: &'static str)
    ensures
        keyword@ == spec_at_keyword(ty),
{
    match ty {
        CssRuleType::Style => "",
        CssRuleType::Import => "@import",
        CssRuleType::Media => "@media",
        CssRuleType::FontFace => "@font-face",
        CssRuleType::Page => "@page",
        CssRuleType::Keyframes => "@keyframes",
        CssRuleType::Keyframe => "",
        CssRuleType::Margin => "@",
        CssRuleType::Namespace => "@namespace",
        CssRuleType::CounterStyle => "@counter-style",
        CssRuleType::Supports => "@supports",
        CssRuleType::Document => "@-moz-document",
        CssRuleType::FontFeatureValues => "@font-feature-values",
        CssRuleType::LayerBlock => "@layer",
        CssRuleType::LayerStatement => "@layer",
        CssRuleType::Container => "@container",
        CssRuleType::FontPaletteValues => "@font-palette-values",
        CssRuleType::Property => "@property",
        CssRuleType::Scope => "@scope",
        CssRuleType::StartingStyle => "@starting-style",
        CssRuleType::PositionTry => "@position-try",
        CssRuleType::NestedDeclarations => "",
    }
}

impl RuleView {
    /// Whether this is a nested-declarations rule without declarations. Such
    /// a rule is passed over when a list of rules is serialized.
    pub open spec fn is_empty_nested_declarations(self) -> bool {
        self.rule_type == CssRuleType::NestedDeclarations && self.block.len() == 0
    }

    /// The nested rules, none where the rule has no list of them.
    pub open spec fn nested(self) -> Seq<RuleView> {
        match self.rules {
            Some(rules) => rules,
            None => Seq::empty(),
        }
    }
}

/// The text between the keyword of a rule and its body: a space and the
/// prelude, or nothing where the prelude is empty.
pub open spec fn prelude_css(prelude: Seq<char>) -> Seq<char> {
    if prelude.len() > 0 {
        " "@ + prelude
    } else {
        Seq::empty()
    }
}

/// The text of a block of declarations, from the space before its opening
/// brace: ` { a: b; c: d; }`, and ` { }` where there is no declaration.
pub open spec fn declaration_block_css(block: Seq<DeclarationView>) -> Seq<char> {
    if block.len() > 0 {
        " { "@ + declarations_css(block) + " }"@
    } else {
        " { }"@
    }
}

/// The text of the body of a style or page rule, from its opening brace.
///
/// With nested rules, the declarations stand on a line of their own before
/// them and the closing brace on the last line. Without, declarations and
/// braces stand on one line, and nothing but a space stands between the
/// braces where there is no declaration either.
pub open spec fn style_body_css(block: Seq<DeclarationView>, rules: Option<Seq<RuleView>>) -> Seq<char>
    decreases rules, 1nat,
{
    match rules {
        Some(nested) if nested.len() > 0 => {
            if block.len() > 0 {
                "{"@ + "\n  "@ + declarations_css(block) + rules_css(nested) + "\n}"@
            } else {
                "{"@ + rules_css(nested) + "\n}"@
            }
        },
        _ => {
            if block.len() > 0 {
                "{"@ + " "@ + declarations_css(block) + " }"@
            } else {
                "{"@ + " }"@
            }
        },
    }
}

/// The text of the rules of a block, after its opening brace and before its
/// closing brace: each rule on a line of its own, indented by two spaces.
/// Nested-declarations rules without declarations leave no trace.
pub open spec fn rules_css(rules: Seq<RuleView>) -> Seq<char>
    decreases rules, 0nat, rules.len(),
{
    if rules.len() == 0 {
        Seq::empty()
    } else if rules.last().is_empty_nested_declarations() {
        rules_css(rules.drop_last())
    } else {
        rules_css(rules.drop_last()) + "\n  "@ + css_text(rules.last())
    }
}

/// The CSS text of a rule.
pub open spec fn css_text(rule: RuleView) -> Seq<char>
    decreases rule,
{
    match rule.rule_type {
        CssRuleType::Style => rule.prelude + " "@ + style_body_css(rule.block, rule.rules),
        CssRuleType::Page => "@page"@ + prelude_css(rule.prelude) + " "@ + style_body_css(
            rule.block,
            rule.rules,
        ),
        CssRuleType::NestedDeclarations => declarations_css(rule.block),
        CssRuleType::Keyframe => rule.prelude + declaration_block_css(rule.block),
        CssRuleType::Margin => "@"@ + rule.prelude + declaration_block_css(rule.block),
        CssRuleType::Import | CssRuleType::Namespace | CssRuleType::LayerStatement => spec_at_keyword(
            rule.rule_type,
        ) + prelude_css(rule.prelude) + ";"@,
        CssRuleType::Media
        | CssRuleType::Container
        | CssRuleType::Supports
        | CssRuleType::Document
        | CssRuleType::LayerBlock
        | CssRuleType::Scope
        | CssRuleType::StartingStyle
        | CssRuleType::Keyframes => spec_at_keyword(rule.rule_type) + prelude_css(rule.prelude) + " {"@
            + match rule.rules {
            Some(nested) => rules_css(nested),
            None => Seq::empty(),
        } + "\n}"@,
        CssRuleType::FontFace
        | CssRuleType::FontFeatureValues
        | CssRuleType::FontPaletteValues
        | CssRuleType::CounterStyle
        | CssRuleType::Property
        | CssRuleType::PositionTry => spec_at_keyword(rule.rule_type) + prelude_css(rule.prelude)
            + declaration_block_css(rule.block),
    }
}

} // verus!
