//! The keywords of the at-rules, as the grammar reads them.
use vstd::prelude::*;
use crate::stylesheets::grammar::{spec_at_rule_type, spec_is_margin_box, spec_is_name_char};
use crate::stylesheets::rule_view::{spec_at_keyword, spec_body_kind, BodyKind};
use crate::stylesheets::CssRuleType;

verus! {

/// Whether rules of the type open with an at-keyword of their own.
pub open spec fn has_keyword(rule_type: CssRuleType) -> bool {
    match rule_type {
        CssRuleType::Style
        | CssRuleType::Keyframe
        | CssRuleType::Margin
        | CssRuleType::NestedDeclarations => false,
        _ => true,
    }
}

/// The name in the at-keyword of a rule type: the keyword without its `@`.
pub open spec fn keyword_name(rule_type: CssRuleType) -> Seq<char> {
    match rule_type {
        CssRuleType::Import => "import"@,
        CssRuleType::Media => "media"@,
        CssRuleType::FontFace => "font-face"@,
        CssRuleType::Page => "page"@,
        CssRuleType::Keyframes => "keyframes"@,
        CssRuleType::Namespace => "namespace"@,
        CssRuleType::CounterStyle => "counter-style"@,
        CssRuleType::Supports => "supports"@,
        CssRuleType::Document => "-moz-document"@,
        CssRuleType::FontFeatureValues => "font-feature-values"@,
        CssRuleType::LayerBlock => "layer"@,
        CssRuleType::LayerStatement => "layer"@,
        CssRuleType::Container => "container"@,
        CssRuleType::FontPaletteValues => "font-palette-values"@,
        CssRuleType::Property => "property"@,
        CssRuleType::Scope => "scope"@,
        CssRuleType::StartingStyle => "starting-style"@,
        CssRuleType::PositionTry => "position-try"@,
        _ => Seq::empty(),
    }
}

/// Whether every character of the text is a name character.
pub open spec fn all_name_chars(text: Seq<char>) -> bool {
    forall|i: int| 0 <= i < text.len() ==> spec_is_name_char(#[trigger] text[i])
}

/// What the grammar needs of the keyword of a rule type: the keyword is `@`
/// and a name, and that name, with the end that rules of the type have, is
/// read as the type.
pub open spec fn keyword_reads_as(rule_type: CssRuleType) -> bool {
    &&& spec_at_keyword(rule_type) == seq!['@'] + keyword_name(rule_type)
    &&& keyword_name(rule_type).len() > 0
    &&& all_name_chars(keyword_name(rule_type))
    &&& spec_at_rule_type(keyword_name(rule_type), spec_body_kind(rule_type) != BodyKind::Statement)
        == Some(rule_type)
}

/// The names of the at-rules and of the margin boxes: what they are made of,
/// and that no two of them are the same.
proof fn lemma_names()
    ensures
        "import"@.len() == 6,
        all_name_chars("import"@),
        "namespace"@.len() == 9,
        all_name_chars("namespace"@),
        "layer"@.len() == 5,
        all_name_chars("layer"@),
        "media"@.len() == 5,
        all_name_chars("media"@),
        "container"@.len() == 9,
        all_name_chars("container"@),
        "supports"@.len() == 8,
        all_name_chars("supports"@),
        "-moz-document"@.len() == 13,
        all_name_chars("-moz-document"@),
        "scope"@.len() == 5,
        all_name_chars("scope"@),
        "starting-style"@.len() == 14,
        all_name_chars("starting-style"@),
        "font-face"@.len() == 9,
        all_name_chars("font-face"@),
        "font-feature-values"@.len() == 19,
        all_name_chars("font-feature-values"@),
        "font-palette-values"@.len() == 19,
        all_name_chars("font-palette-values"@),
        "counter-style"@.len() == 13,
        all_name_chars("counter-style"@),
        "property"@.len() == 8,
        all_name_chars("property"@),
        "position-try"@.len() == 12,
        all_name_chars("position-try"@),
        "keyframes"@.len() == 9,
        all_name_chars("keyframes"@),
        "page"@.len() == 4,
        all_name_chars("page"@),
        "top-left-corner"@.len() == 15,
        all_name_chars("top-left-corner"@),
        "top-left"@.len() == 8,
        all_name_chars("top-left"@),
        "top-center"@.len() == 10,
        all_name_chars("top-center"@),
        "top-right"@.len() == 9,
        all_name_chars("top-right"@),
        "top-right-corner"@.len() == 16,
        all_name_chars("top-right-corner"@),
        "bottom-left-corner"@.len() == 18,
        all_name_chars("bottom-left-corner"@),
        "bottom-left"@.len() == 11,
        all_name_chars("bottom-left"@),
        "bottom-center"@.len() == 13,
        all_name_chars("bottom-center"@),
        "bottom-right"@.len() == 12,
        all_name_chars("bottom-right"@),
        "bottom-right-corner"@.len() == 19,
        all_name_chars("bottom-right-corner"@),
        "left-top"@.len() == 8,
        all_name_chars("left-top"@),
        "left-middle"@.len() == 11,
        all_name_chars("left-middle"@),
        "left-bottom"@.len() == 11,
        all_name_chars("left-bottom"@),
        "right-top"@.len() == 9,
        all_name_chars("right-top"@),
        "right-middle"@.len() == 12,
        all_name_chars("right-middle"@),
        "right-bottom"@.len() == 12,
        all_name_chars("right-bottom"@),
        "media"@ != "layer"@,
        "container"@ != "namespace"@,
        "scope"@ != "layer"@,
        "scope"@ != "media"@,
        "font-face"@ != "namespace"@,
        "font-face"@ != "container"@,
        "font-palette-values"@ != "font-feature-values"@,
        "counter-style"@ != "-moz-document"@,
        "property"@ != "supports"@,
        "keyframes"@ != "namespace"@,
        "keyframes"@ != "container"@,
        "keyframes"@ != "font-face"@,
        "top-left"@ != "supports"@,
        "top-left"@ != "property"@,
        "top-right"@ != "namespace"@,
        "top-right"@ != "container"@,
        "top-right"@ != "font-face"@,
        "top-right"@ != "keyframes"@,
        "bottom-center"@ != "-moz-document"@,
        "bottom-center"@ != "counter-style"@,
        "bottom-right"@ != "position-try"@,
        "bottom-right-corner"@ != "font-feature-values"@,
        "bottom-right-corner"@ != "font-palette-values"@,
        "left-top"@ != "supports"@,
        "left-top"@ != "property"@,
        "right-top"@ != "namespace"@,
        "right-top"@ != "container"@,
        "right-top"@ != "font-face"@,
        "right-top"@ != "keyframes"@,
        "right-middle"@ != "position-try"@,
        "right-bottom"@ != "position-try"@,
        "@import"@ == seq!['@'] + "import"@,
        "@namespace"@ == seq!['@'] + "namespace"@,
        "@layer"@ == seq!['@'] + "layer"@,
        "@media"@ == seq!['@'] + "media"@,
        "@container"@ == seq!['@'] + "container"@,
        "@supports"@ == seq!['@'] + "supports"@,
        "@-moz-document"@ == seq!['@'] + "-moz-document"@,
        "@scope"@ == seq!['@'] + "scope"@,
        "@starting-style"@ == seq!['@'] + "starting-style"@,
        "@font-face"@ == seq!['@'] + "font-face"@,
        "@font-feature-values"@ == seq!['@'] + "font-feature-values"@,
        "@font-palette-values"@ == seq!['@'] + "font-palette-values"@,
        "@counter-style"@ == seq!['@'] + "counter-style"@,
        "@property"@ == seq!['@'] + "property"@,
        "@position-try"@ == seq!['@'] + "position-try"@,
        "@keyframes"@ == seq!['@'] + "keyframes"@,
        "@page"@ == seq!['@'] + "page"@,
{
    reveal_strlit("import");
    reveal_strlit("namespace");
    reveal_strlit("layer");
    reveal_strlit("media");
    reveal_strlit("container");
    reveal_strlit("supports");
    reveal_strlit("-moz-document");
    reveal_strlit("scope");
    reveal_strlit("starting-style");
    reveal_strlit("font-face");
    reveal_strlit("font-feature-values");
    reveal_strlit("font-palette-values");
    reveal_strlit("counter-style");
    reveal_strlit("property");
    reveal_strlit("position-try");
    reveal_strlit("keyframes");
    reveal_strlit("page");
    reveal_strlit("top-left-corner");
    reveal_strlit("top-left");
    reveal_strlit("top-center");
    reveal_strlit("top-right");
    reveal_strlit("top-right-corner");
    reveal_strlit("bottom-left-corner");
    reveal_strlit("bottom-left");
    reveal_strlit("bottom-center");
    reveal_strlit("bottom-right");
    reveal_strlit("bottom-right-corner");
    reveal_strlit("left-top");
    reveal_strlit("left-middle");
    reveal_strlit("left-bottom");
    reveal_strlit("right-top");
    reveal_strlit("right-middle");
    reveal_strlit("right-bottom");
    reveal_strlit("@import");
    reveal_strlit("@namespace");
    reveal_strlit("@layer");
    reveal_strlit("@media");
    reveal_strlit("@container");
    reveal_strlit("@supports");
    reveal_strlit("@-moz-document");
    reveal_strlit("@scope");
    reveal_strlit("@starting-style");
    reveal_strlit("@font-face");
    reveal_strlit("@font-feature-values");
    reveal_strlit("@font-palette-values");
    reveal_strlit("@counter-style");
    reveal_strlit("@property");
    reveal_strlit("@position-try");
    reveal_strlit("@keyframes");
    reveal_strlit("@page");
    assert("media"@[0] != "layer"@[0]);
    assert("container"@[0] != "namespace"@[0]);
    assert("scope"@[0] != "layer"@[0]);
    assert("scope"@[0] != "media"@[0]);
    assert("font-face"@[0] != "namespace"@[0]);
    assert("font-face"@[0] != "container"@[0]);
    assert("font-palette-values"@[5] != "font-feature-values"@[5]);
    assert("counter-style"@[0] != "-moz-document"@[0]);
    assert("property"@[0] != "supports"@[0]);
    assert("keyframes"@[0] != "namespace"@[0]);
    assert("keyframes"@[0] != "container"@[0]);
    assert("keyframes"@[0] != "font-face"@[0]);
    assert("top-left"@[0] != "supports"@[0]);
    assert("top-left"@[0] != "property"@[0]);
    assert("top-right"@[0] != "namespace"@[0]);
    assert("top-right"@[0] != "container"@[0]);
    assert("top-right"@[0] != "font-face"@[0]);
    assert("top-right"@[0] != "keyframes"@[0]);
    assert("bottom-center"@[0] != "-moz-document"@[0]);
    assert("bottom-center"@[0] != "counter-style"@[0]);
    assert("bottom-right"@[0] != "position-try"@[0]);
    assert("bottom-right-corner"@[0] != "font-feature-values"@[0]);
    assert("bottom-right-corner"@[0] != "font-palette-values"@[0]);
    assert("left-top"@[0] != "supports"@[0]);
    assert("left-top"@[0] != "property"@[0]);
    assert("right-top"@[0] != "namespace"@[0]);
    assert("right-top"@[0] != "container"@[0]);
    assert("right-top"@[0] != "font-face"@[0]);
    assert("right-top"@[0] != "keyframes"@[0]);
    assert("right-middle"@[0] != "position-try"@[0]);
    assert("right-bottom"@[0] != "position-try"@[0]);
    assert("@import"@ =~= seq!['@'] + "import"@);
    assert("@namespace"@ =~= seq!['@'] + "namespace"@);
    assert("@layer"@ =~= seq!['@'] + "layer"@);
    assert("@media"@ =~= seq!['@'] + "media"@);
    assert("@container"@ =~= seq!['@'] + "container"@);
    assert("@supports"@ =~= seq!['@'] + "supports"@);
    assert("@-moz-document"@ =~= seq!['@'] + "-moz-document"@);
    assert("@scope"@ =~= seq!['@'] + "scope"@);
    assert("@starting-style"@ =~= seq!['@'] + "starting-style"@);
    assert("@font-face"@ =~= seq!['@'] + "font-face"@);
    assert("@font-feature-values"@ =~= seq!['@'] + "font-feature-values"@);
    assert("@font-palette-values"@ =~= seq!['@'] + "font-palette-values"@);
    assert("@counter-style"@ =~= seq!['@'] + "counter-style"@);
    assert("@property"@ =~= seq!['@'] + "property"@);
    assert("@position-try"@ =~= seq!['@'] + "position-try"@);
    assert("@keyframes"@ =~= seq!['@'] + "keyframes"@);
    assert("@page"@ =~= seq!['@'] + "page"@);
}

/// The keyword of every rule type that has one is read as that type.
pub proof fn lemma_keyword(rule_type: CssRuleType)
    requires
        has_keyword(rule_type),
    ensures
        keyword_reads_as(rule_type),
{
    lemma_names();
}

/// The name of a margin box is a name, and the at-rule of that name with a
/// block is read as a margin rule.
pub proof fn lemma_margin_box_reads_as(name: Seq<char>)
    requires
        spec_is_margin_box(name),
    ensures
        name.len() > 0,
        all_name_chars(name),
        spec_at_rule_type(name, true) == Some(CssRuleType::Margin),
{
    lemma_names();
}

} // verus!
