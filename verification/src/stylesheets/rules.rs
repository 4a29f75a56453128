//! The rule kinds, by the shape of what they hold.
//!
//! Rule kinds that hold the same sort of content share one type: the group
//! rules (`@media`, `@supports` and the like) hold a prelude and a list of
//! rules, the descriptor rules (`@font-face` and the like) a prelude and
//! declarations. What can be edited after the rule was made sits in a cell of
//! its own; what cannot is held as it is.
use vstd::prelude::*;
use std::sync::Arc;
use crate::properties::PropertyDeclarationBlock;
use crate::shared_lock::{Locked, SharedRwLock, SharedRwLockReadGuard};
use crate::stylesheets::input::SourceLocation;
use crate::stylesheets::CssRuleType;
use crate::stylesheets::rule_list::{rules_view, rules_within, CssRules};
use crate::stylesheets::rule_view::{
    at_keyword, css_text, declaration_block_css, prelude_css, rules_css, spec_body_kind,
    style_body_css, BodyKind, RuleView,
};

verus! {

/// A style rule: selectors, declarations and, with nesting, rules.
#[derive(Debug)]
pub struct StyleRule {
    /// The selectors, as they are serialized.
    pub selectors: String,
    /// The nested rules, if the rule ever had any.
    pub rules: Option<Arc<Locked<CssRules>>>,
    /// The declarations.
    pub block: Arc<Locked<PropertyDeclarationBlock>>,
}

/// A `@page` rule: page selectors, declarations and margin rules.
#[derive(Debug)]
pub struct PageRule {
    /// The page selectors, empty where the rule is for every page.
    pub selectors: String,
    /// The margin rules, if the rule ever had any.
    pub rules: Option<Arc<Locked<CssRules>>>,
    /// The declarations.
    pub block: Arc<Locked<PropertyDeclarationBlock>>,
}

/// A rule that holds a list of rules behind a prelude.
#[derive(Debug)]
pub struct GroupRule {
    /// The condition or name, empty where the rule has none.
    pub prelude: String,
    /// The rules of the block.
    pub rules: Arc<Locked<CssRules>>,
}

/// A rule that holds descriptors behind a prelude, and that stands in one
/// piece: it has no cell of its own inside.
#[derive(Debug)]
pub struct DescriptorsRule {
    /// The name, empty where the rule has none.
    pub prelude: String,
    /// The descriptors.
    pub block: PropertyDeclarationBlock,
}

/// A rule that holds an editable declaration block behind a prelude.
#[derive(Debug)]
pub struct DeclarationsRule {
    /// The name: of the margin box, of the position-try rule.
    pub prelude: String,
    /// The declarations.
    pub block: Arc<Locked<PropertyDeclarationBlock>>,
}

/// Declarations that stand between the rules nested in a style rule.
#[derive(Debug)]
pub struct NestedDeclarationsRule {
    /// The declarations.
    pub block: Arc<Locked<PropertyDeclarationBlock>>,
    /// Where in its text the rule was found.
    pub source_location: SourceLocation,
}

/// A rule that is a prelude and a semicolon.
#[derive(Debug)]
pub struct StatementRule {
    /// What stands between the keyword and the semicolon.
    pub prelude: String,
}

/// One keyframe of a `@keyframes` rule.
#[derive(Debug)]
pub struct Keyframe {
    /// The keyframe selector.
    pub selector: String,
    /// The declarations.
    pub block: Arc<Locked<PropertyDeclarationBlock>>,
}

/// A `@keyframes` rule.
#[derive(Debug)]
pub struct KeyframesRule {
    /// The name of the animation.
    pub name: String,
    /// The keyframes.
    pub keyframes: Vec<Arc<Locked<Keyframe>>>,
}

/// A `@namespace` rule.
pub type NamespaceRule = StatementRule;

/// An `@import` rule.
pub type ImportRule = StatementRule;

/// A `@layer` statement rule: `@layer a, b;`.
pub type LayerStatementRule = StatementRule;

/// A `@media` rule.
pub type MediaRule = GroupRule;

/// A `@container` rule.
pub type ContainerRule = GroupRule;

/// A `@supports` rule.
pub type SupportsRule = GroupRule;

/// A `@-moz-document` rule.
pub type DocumentRule = GroupRule;

/// A `@layer` block rule: `@layer a { }`.
pub type LayerBlockRule = GroupRule;

/// A `@scope` rule.
pub type ScopeRule = GroupRule;

/// A `@starting-style` rule.
pub type StartingStyleRule = GroupRule;

/// A `@font-face` rule.
pub type FontFaceRule = DescriptorsRule;

/// A `@font-feature-values` rule.
pub type FontFeatureValuesRule = DescriptorsRule;

/// A `@font-palette-values` rule.
pub type FontPaletteValuesRule = DescriptorsRule;

/// A `@counter-style` rule.
pub type CounterStyleRule = DescriptorsRule;

/// A `@property` rule.
pub type PropertyRule = DescriptorsRule;

/// A margin rule of a page, such as `@top-left`. Its prelude is the name of
/// its margin box.
pub type MarginRule = DeclarationsRule;

/// A `@position-try` rule.
pub type PositionTryRule = DeclarationsRule;

/// Writes a space and the prelude, or nothing where the prelude is empty.
pub fn prelude_to_css(prelude: &String, dest: &mut String)
    ensures
        final(dest)@ == old(dest)@ + prelude_css(prelude@),
{
    if !prelude.as_str().is_empty() {
        dest.append(" ");
        dest.append(prelude.as_str());
        assert(dest@ =~= old(dest)@ + prelude_css(prelude@));
    } else {
        assert(dest@ =~= old(dest)@ + prelude_css(prelude@));
    }
}

/// Writes a block of declarations, from the space before its opening brace.
pub fn declaration_block_to_css(block: &PropertyDeclarationBlock, dest: &mut String)
    ensures
        final(dest)@ == old(dest)@ + declaration_block_css(block@),
{
    if block.is_empty() {
        dest.append(" { }");
    } else {
        dest.append(" { ");
        block.to_css(dest);
        dest.append(" }");
        assert(dest@ =~= old(dest)@ + declaration_block_css(block@));
    }
}

/// Serialize a page or style rule, starting with the opening brace.
///
/// <https://drafts.csswg.org/cssom/#serialize-a-css-rule> CSSStyleRule
///
/// This is not properly specified for page rules, but the same process
/// applies to them.
pub fn style_or_page_rule_to_css(
    rules: Option<&Arc<Locked<CssRules>>>,
    block: &Locked<PropertyDeclarationBlock>,
    guard: &SharedRwLockReadGuard,
    dest: &mut String,
)
    requires
        block.domain() == guard.domain(),
        rules matches Some(list) ==> list.domain() == guard.domain() && list.value().guarded_by(
            guard.domain(),
        ),
    ensures
        final(dest)@ == old(dest)@ + style_body_css(
            block.value()@,
            match rules {
                Some(list) => Some(list.value()@),
                None => None,
            },
        ),
    decreases rules,
{
    // Write the opening brace. The caller needs to serialize up to this point.
    dest.append("{");

    // Step 2
    let declaration_block = block.read_with(guard);
    let has_declarations = !declaration_block.is_empty();

    // Step 3
    if let Some(list) = rules {
        let nested = list.read_with(guard);
        // Step 6 (here because it's more convenient)
        if !nested.is_empty() {
            if has_declarations {
                dest.append("\n  ");
                declaration_block.to_css(dest);
            }
            nested.to_css_block_without_opening(guard, dest);
            assert(dest@ =~= old(dest)@ + style_body_css(block.value()@, Some(list.value()@)));
            return ;
        }
    }
    // Steps 4 & 5

    if has_declarations {
        dest.append(" ");
        declaration_block.to_css(dest);
    }
    dest.append(" }");
    assert(dest@ =~= old(dest)@ + style_body_css(
        block.value()@,
        match rules {
            Some(list) => Some(list.value()@),
            None => None,
        },
    ));
}

/// Serialize a page or style rule, starting with the opening brace, if the
/// guard opens the block and the rules, and say whether it did. With a guard
/// that does not, which is one of another lock domain, nothing is written.
pub fn try_style_or_page_rule_to_css(
    rules: Option<&Arc<Locked<CssRules>>>,
    block: &Locked<PropertyDeclarationBlock>,
    guard: &SharedRwLockReadGuard,
    dest: &mut String,
) -> (written: bool)
    ensures
        written == (block.domain() == guard.domain() && (rules matches Some(list) ==> list.domain()
            == guard.domain() && list.value().guarded_by(guard.domain()))),
        written ==> final(dest)@ == old(dest)@ + style_body_css(
            block.value()@,
            match rules {
                Some(list) => Some(list.value()@),
                None => None,
            },
        ),
        !written ==> final(dest)@ == old(dest)@,
{
    if !block.is_guarded_by(guard) {
        return false;
    }
    if let Some(list) = rules {
        match list.try_read_with(guard) {
            Some(nested) => {
                if !nested.is_guarded_by(guard) {
                    return false;
                }
            },
            None => {
                return false;
            },
        }
    }
    style_or_page_rule_to_css(rules, block, guard, dest);
    true
}

impl StyleRule {
    pub open spec fn view(&self) -> RuleView
        decreases self,
    {
        RuleView {
            rule_type: CssRuleType::Style,
            prelude: self.selectors@,
            block: self.block.value()@,
            rules: match self.rules {
                Some(list) => Some(rules_view(list.value().0@)),
                None => None,
            },
        }
    }

    /// Whether every cell of this rule belongs to one of the given domains.
    pub open spec fn cells_within(&self, domains: Set<u64>) -> bool
        decreases self,
    {
        &&& domains.contains(self.block.domain())
        &&& match self.rules {
            Some(list) => domains.contains(list.domain()) && rules_within(list.value().0@, domains),
            None => true,
        }
    }

    /// Whether every cell of this rule belongs to the given domain.
    pub open spec fn guarded_by(&self, domain: u64) -> bool {
        self.cells_within(set![domain])
    }

    /// Whether the guard opens every cell of this rule.
    pub fn is_guarded_by(&self, guard: &SharedRwLockReadGuard) -> (guarded: bool)
        ensures
            guarded == self.guarded_by(guard.domain()),
        decreases self,
    {
        if !self.block.is_guarded_by(guard) {
            return false;
        }
        match &self.rules {
            Some(list) => match list.try_read_with(guard) {
                Some(rules) => rules.is_guarded_by(guard),
                None => false,
            },
            None => true,
        }
    }

    /// Serialize the rule: the selectors, a space, and the body.
    pub fn to_css(&self, guard: &SharedRwLockReadGuard, dest: &mut String)
        requires
            self.guarded_by(guard.domain()),
        ensures
            final(dest)@ == old(dest)@ + css_text(self@),
        decreases self,
    {
        // Step 1
        dest.append(self.selectors.as_str());
        dest.append(" ");
        // Step 2
        style_or_page_rule_to_css(self.rules.as_ref(), &self.block, guard, dest);
        assert(dest@ =~= old(dest)@ + css_text(self@));
    }

    /// A copy of this rule whose cells all belong to `lock`.
    pub fn deep_clone_with_lock(&self, lock: &SharedRwLock, guard: &SharedRwLockReadGuard) -> (copy:
        StyleRule)
        requires
            self.guarded_by(guard.domain()),
        ensures
            copy@ == self@,
            copy.guarded_by(lock.domain()),
        decreases self,
    {
        let rules = match &self.rules {
            Some(list) => Some(
                Arc::new(lock.wrap(list.read_with(guard).deep_clone_with_lock(lock, guard))),
            ),
            None => None,
        };
        StyleRule {
            selectors: self.selectors.clone(),
            rules,
            block: Arc::new(lock.wrap(self.block.read_with(guard).duplicate())),
        }
    }
}

impl PageRule {
    pub open spec fn view(&self) -> RuleView
        decreases self,
    {
        RuleView {
            rule_type: CssRuleType::Page,
            prelude: self.selectors@,
            block: self.block.value()@,
            rules: match self.rules {
                Some(list) => Some(rules_view(list.value().0@)),
                None => None,
            },
        }
    }

    /// Whether every cell of this rule belongs to one of the given domains.
    pub open spec fn cells_within(&self, domains: Set<u64>) -> bool
        decreases self,
    {
        &&& domains.contains(self.block.domain())
        &&& match self.rules {
            Some(list) => domains.contains(list.domain()) && rules_within(list.value().0@, domains),
            None => true,
        }
    }

    /// Whether every cell of this rule belongs to the given domain.
    pub open spec fn guarded_by(&self, domain: u64) -> bool {
        self.cells_within(set![domain])
    }

    /// Whether the guard opens every cell of this rule.
    pub fn is_guarded_by(&self, guard: &SharedRwLockReadGuard) -> (guarded: bool)
        ensures
            guarded == self.guarded_by(guard.domain()),
        decreases self,
    {
        if !self.block.is_guarded_by(guard) {
            return false;
        }
        match &self.rules {
            Some(list) => match list.try_read_with(guard) {
                Some(rules) => rules.is_guarded_by(guard),
                None => false,
            },
            None => true,
        }
    }

    /// Serialize the rule: `@page`, the selectors if there are any, and the
    /// body.
    pub fn to_css(&self, guard: &SharedRwLockReadGuard, dest: &mut String)
        requires
            self.guarded_by(guard.domain()),
        ensures
            final(dest)@ == old(dest)@ + css_text(self@),
        decreases self,
    {
        dest.append("@page");
        prelude_to_css(&self.selectors, dest);
        dest.append(" ");
        style_or_page_rule_to_css(self.rules.as_ref(), &self.block, guard, dest);
        assert(dest@ =~= old(dest)@ + css_text(self@));
    }

    /// A copy of this rule whose cells all belong to `lock`.
    pub fn deep_clone_with_lock(&self, lock: &SharedRwLock, guard: &SharedRwLockReadGuard) -> (copy:
        PageRule)
        requires
            self.guarded_by(guard.domain()),
        ensures
            copy@ == self@,
            copy.guarded_by(lock.domain()),
        decreases self,
    {
        let rules = match &self.rules {
            Some(list) => Some(
                Arc::new(lock.wrap(list.read_with(guard).deep_clone_with_lock(lock, guard))),
            ),
            None => None,
        };
        PageRule {
            selectors: self.selectors.clone(),
            rules,
            block: Arc::new(lock.wrap(self.block.read_with(guard).duplicate())),
        }
    }
}

impl GroupRule {
    /// The content of this rule, as a rule of the given type.
    pub open spec fn rule_view(&self, rule_type: CssRuleType) -> RuleView
        decreases self,
    {
        RuleView {
            rule_type,
            prelude: self.prelude@,
            block: Seq::empty(),
            rules: Some(rules_view(self.rules.value().0@)),
        }
    }

    /// Whether every cell of this rule belongs to one of the given domains.
    pub open spec fn cells_within(&self, domains: Set<u64>) -> bool
        decreases self,
    {
        &&& domains.contains(self.rules.domain())
        &&& rules_within(self.rules.value().0@, domains)
    }

    /// Whether every cell of this rule belongs to the given domain.
    pub open spec fn guarded_by(&self, domain: u64) -> bool {
        self.cells_within(set![domain])
    }

    /// Whether the guard opens every cell of this rule.
    pub fn is_guarded_by(&self, guard: &SharedRwLockReadGuard) -> (guarded: bool)
        ensures
            guarded == self.guarded_by(guard.domain()),
        decreases self,
    {
        match self.rules.try_read_with(guard) {
            Some(rules) => rules.is_guarded_by(guard),
            None => false,
        }
    }

    /// Serialize the rule as a rule of the given type: the keyword, the
    /// prelude if there is one, and the block of rules.
    pub fn to_css(&self, rule_type: CssRuleType, guard: &SharedRwLockReadGuard, dest: &mut String)
        requires
            spec_body_kind(rule_type) == BodyKind::Rules,
            self.guarded_by(guard.domain()),
        ensures
            final(dest)@ == old(dest)@ + css_text(self.rule_view(rule_type)),
        decreases self,
    {
        dest.append(at_keyword(rule_type));
        prelude_to_css(&self.prelude, dest);
        self.rules.read_with(guard).to_css_block(guard, dest);
        assert(dest@ =~= old(dest)@ + css_text(self.rule_view(rule_type)));
    }

    /// A copy of this rule whose cells all belong to `lock`.
    pub fn deep_clone_with_lock(&self, lock: &SharedRwLock, guard: &SharedRwLockReadGuard) -> (copy:
        GroupRule)
        requires
            self.guarded_by(guard.domain()),
        ensures
            copy.prelude@ == self.prelude@,
            copy.rules.value()@ == self.rules.value()@,
            copy.guarded_by(lock.domain()),
        decreases self,
    {
        GroupRule {
            prelude: self.prelude.clone(),
            rules: Arc::new(lock.wrap(self.rules.read_with(guard).deep_clone_with_lock(lock, guard))),
        }
    }
}

impl DescriptorsRule {
    /// The content of this rule, as a rule of the given type.
    pub open spec fn rule_view(&self, rule_type: CssRuleType) -> RuleView {
        RuleView { rule_type, prelude: self.prelude@, block: self.block@, rules: None }
    }

    /// Serialize the rule as a rule of the given type: the keyword, the
    /// prelude if there is one, and the block of descriptors.
    pub fn to_css(&self, rule_type: CssRuleType, dest: &mut String)
        requires
            spec_body_kind(rule_type) == BodyKind::Declarations,
            rule_type != CssRuleType::Margin,
            rule_type != CssRuleType::Keyframe,
        ensures
            final(dest)@ == old(dest)@ + css_text(self.rule_view(rule_type)),
    {
        dest.append(at_keyword(rule_type));
        prelude_to_css(&self.prelude, dest);
        declaration_block_to_css(&self.block, dest);
        assert(dest@ =~= old(dest)@ + css_text(self.rule_view(rule_type)));
    }

    /// A copy of this rule.
    pub fn duplicate(&self) -> (copy: DescriptorsRule)
        ensures
            copy.prelude@ == self.prelude@,
            copy.block@ == self.block@,
    {
        DescriptorsRule { prelude: self.prelude.clone(), block: self.block.duplicate() }
    }
}

impl DeclarationsRule {
    /// The content of this rule, as a rule of the given type.
    pub open spec fn rule_view(&self, rule_type: CssRuleType) -> RuleView {
        RuleView { rule_type, prelude: self.prelude@, block: self.block.value()@, rules: None }
    }

    /// Whether every cell of this rule belongs to one of the given domains.
    pub open spec fn cells_within(&self, domains: Set<u64>) -> bool {
        domains.contains(self.block.domain())
    }

    /// Whether every cell of this rule belongs to the given domain.
    pub open spec fn guarded_by(&self, domain: u64) -> bool {
        self.cells_within(set![domain])
    }

    /// Whether the guard opens the cell of this rule.
    pub fn is_guarded_by(&self, guard: &SharedRwLockReadGuard) -> (guarded: bool)
        ensures
            guarded == self.guarded_by(guard.domain()),
    {
        self.block.is_guarded_by(guard)
    }

    /// Serialize the rule as a rule of the given type. A margin rule is
    /// written as `@` and the name of its margin box before the block; another
    /// rule as its keyword, its name and the block.
    pub fn to_css(&self, rule_type: CssRuleType, guard: &SharedRwLockReadGuard, dest: &mut String)
        requires
            rule_type == CssRuleType::Margin || rule_type == CssRuleType::PositionTry,
            self.guarded_by(guard.domain()),
        ensures
            final(dest)@ == old(dest)@ + css_text(self.rule_view(rule_type)),
    {
        match rule_type {
            CssRuleType::Margin => {
                dest.append("@");
                dest.append(self.prelude.as_str());
            },
            _ => {
                dest.append(at_keyword(rule_type));
                prelude_to_css(&self.prelude, dest);
            },
        }
        declaration_block_to_css(self.block.read_with(guard), dest);
        assert(dest@ =~= old(dest)@ + css_text(self.rule_view(rule_type)));
    }

    /// A copy of this rule whose cell belongs to `lock`.
    pub fn deep_clone_with_lock(&self, lock: &SharedRwLock, guard: &SharedRwLockReadGuard) -> (copy:
        DeclarationsRule)
        requires
            self.guarded_by(guard.domain()),
        ensures
            copy.prelude@ == self.prelude@,
            copy.block.value()@ == self.block.value()@,
            copy.guarded_by(lock.domain()),
    {
        DeclarationsRule {
            prelude: self.prelude.clone(),
            block: Arc::new(lock.wrap(self.block.read_with(guard).duplicate())),
        }
    }
}

impl NestedDeclarationsRule {
    pub open spec fn view(&self) -> RuleView {
        RuleView {
            rule_type: CssRuleType::NestedDeclarations,
            prelude: Seq::empty(),
            block: self.block.value()@,
            rules: None,
        }
    }

    /// Whether every cell of this rule belongs to one of the given domains.
    pub open spec fn cells_within(&self, domains: Set<u64>) -> bool {
        domains.contains(self.block.domain())
    }

    /// Whether every cell of this rule belongs to the given domain.
    pub open spec fn guarded_by(&self, domain: u64) -> bool {
        self.cells_within(set![domain])
    }

    /// Whether the guard opens the cell of this rule.
    pub fn is_guarded_by(&self, guard: &SharedRwLockReadGuard) -> (guarded: bool)
        ensures
            guarded == self.guarded_by(guard.domain()),
    {
        self.block.is_guarded_by(guard)
    }

    /// Serialize the rule: its declarations, with no braces around them.
    pub fn to_css(&self, guard: &SharedRwLockReadGuard, dest: &mut String)
        requires
            self.guarded_by(guard.domain()),
        ensures
            final(dest)@ == old(dest)@ + css_text(self@),
    {
        self.block.read_with(guard).to_css(dest);
    }

    /// A copy of this rule whose cell belongs to `lock`.
    pub fn deep_clone_with_lock(&self, lock: &SharedRwLock, guard: &SharedRwLockReadGuard) -> (copy:
        NestedDeclarationsRule)
        requires
            self.guarded_by(guard.domain()),
        ensures
            copy@ == self@,
            copy.source_location == self.source_location,
            copy.guarded_by(lock.domain()),
    {
        NestedDeclarationsRule {
            block: Arc::new(lock.wrap(self.block.read_with(guard).duplicate())),
            source_location: self.source_location,
        }
    }
}

impl StatementRule {
    /// The content of this rule, as a rule of the given type.
    pub open spec fn rule_view(&self, rule_type: CssRuleType) -> RuleView {
        RuleView { rule_type, prelude: self.prelude@, block: Seq::empty(), rules: None }
    }

    /// Serialize the rule as a rule of the given type: the keyword, the
    /// prelude if there is one, and a semicolon.
    pub fn to_css(&self, rule_type: CssRuleType, dest: &mut String)
        requires
            spec_body_kind(rule_type) == BodyKind::Statement,
        ensures
            final(dest)@ == old(dest)@ + css_text(self.rule_view(rule_type)),
    {
        dest.append(at_keyword(rule_type));
        prelude_to_css(&self.prelude, dest);
        dest.append(";");
        assert(dest@ =~= old(dest)@ + css_text(self.rule_view(rule_type)));
    }

    /// A copy of this rule.
    pub fn duplicate(&self) -> (copy: StatementRule)
        ensures
            copy.prelude@ == self.prelude@,
    {
        StatementRule { prelude: self.prelude.clone() }
    }
}

impl Keyframe {
    pub open spec fn view(&self) -> RuleView {
        RuleView {
            rule_type: CssRuleType::Keyframe,
            prelude: self.selector@,
            block: self.block.value()@,
            rules: None,
        }
    }

    /// Whether every cell of this keyframe belongs to one of the given
    /// domains.
    pub open spec fn cells_within(&self, domains: Set<u64>) -> bool {
        domains.contains(self.block.domain())
    }

    /// Whether the guard opens the cell of this keyframe.
    pub fn is_guarded_by(&self, guard: &SharedRwLockReadGuard) -> (guarded: bool)
        ensures
            guarded == self.cells_within(set![guard.domain()]),
    {
        self.block.is_guarded_by(guard)
    }

    /// Serialize the keyframe: its selector and its block.
    pub fn to_css(&self, guard: &SharedRwLockReadGuard, dest: &mut String)
        requires
            self.cells_within(set![guard.domain()]),
        ensures
            final(dest)@ == old(dest)@ + css_text(self@),
    {
        dest.append(self.selector.as_str());
        declaration_block_to_css(self.block.read_with(guard), dest);
        assert(dest@ =~= old(dest)@ + css_text(self@));
    }

    /// A copy of this keyframe whose cell belongs to `lock`.
    pub fn deep_clone_with_lock(&self, lock: &SharedRwLock, guard: &SharedRwLockReadGuard) -> (copy:
        Keyframe)
        requires
            self.cells_within(set![guard.domain()]),
        ensures
            copy@ == self@,
            copy.cells_within(set![lock.domain()]),
    {
        Keyframe {
            selector: self.selector.clone(),
            block: Arc::new(lock.wrap(self.block.read_with(guard).duplicate())),
        }
    }
}

/// The keyframes of a list, each by its view.
pub open spec fn keyframes_view(keyframes: Seq<Arc<Locked<Keyframe>>>) -> Seq<RuleView> {
    Seq::new(keyframes.len(), |i: int| keyframes[i].value()@)
}

/// Whether every cell of the keyframes, and every cell that holds one of
/// them, belongs to one of the given domains.
pub open spec fn keyframes_within(keyframes: Seq<Arc<Locked<Keyframe>>>, domains: Set<u64>) -> bool {
    forall|i: int|
        0 <= i < keyframes.len() ==> domains.contains((#[trigger] keyframes[i]).domain())
            && keyframes[i].value().cells_within(domains)
}

impl KeyframesRule {
    pub open spec fn view(&self) -> RuleView {
        RuleView {
            rule_type: CssRuleType::Keyframes,
            prelude: self.name@,
            block: Seq::empty(),
            rules: Some(keyframes_view(self.keyframes@)),
        }
    }

    /// Whether every cell of this rule belongs to one of the given domains.
    pub open spec fn cells_within(&self, domains: Set<u64>) -> bool {
        keyframes_within(self.keyframes@, domains)
    }

    /// Whether every cell of this rule belongs to the given domain.
    pub open spec fn guarded_by(&self, domain: u64) -> bool {
        self.cells_within(set![domain])
    }

    /// Whether the guard opens every cell of this rule.
    pub fn is_guarded_by(&self, guard: &SharedRwLockReadGuard) -> (guarded: bool)
        ensures
            guarded == self.guarded_by(guard.domain()),
    {
        let mut i: usize = 0;
        while i < self.keyframes.len()
            invariant
                i <= self.keyframes.len(),
                forall|j: int|
                    0 <= j < i ==> (#[trigger] self.keyframes@[j]).domain() == guard.domain()
                        && self.keyframes@[j].value().cells_within(set![guard.domain()]),
            decreases self.keyframes.len() - i,
        {
            match self.keyframes[i].try_read_with(guard) {
                Some(keyframe) => {
                    if !keyframe.is_guarded_by(guard) {
                        return false;
                    }
                },
                None => {
                    return false;
                },
            }
            i += 1;
        }
        true
    }

    /// Serialize the rule: `@keyframes`, the name, and the keyframes in a
    /// block, each on a line of its own.
    pub fn to_css(&self, guard: &SharedRwLockReadGuard, dest: &mut String)
        requires
            self.guarded_by(guard.domain()),
        ensures
            final(dest)@ == old(dest)@ + css_text(self@),
    {
        dest.append("@keyframes");
        prelude_to_css(&self.name, dest);
        dest.append(" {");
        let ghost start = dest@;
        let ghost views = keyframes_view(self.keyframes@);
        let mut i: usize = 0;
        while i < self.keyframes.len()
            invariant
                i <= self.keyframes.len(),
                views == keyframes_view(self.keyframes@),
                self.guarded_by(guard.domain()),
                dest@ == start + rules_css(views.take(i as int)),
            decreases self.keyframes.len() - i,
        {
            dest.append("\n  ");
            self.keyframes[i].read_with(guard).to_css(guard, dest);
            proof {
                let next = views.take(i + 1);
                assert(next.drop_last() =~= views.take(i as int));
                assert(next.last() == self.keyframes[i as int].value()@);
                assert(dest@ =~= start + rules_css(next));
            }
            i += 1;
        }
        dest.append("\n}");
        proof {
            assert(views.take(i as int) =~= views);
            assert(dest@ =~= old(dest)@ + css_text(self@));
        }
    }

    /// A copy of this rule whose cells all belong to `lock`.
    pub fn deep_clone_with_lock(&self, lock: &SharedRwLock, guard: &SharedRwLockReadGuard) -> (copy:
        KeyframesRule)
        requires
            self.guarded_by(guard.domain()),
        ensures
            copy@ == self@,
            copy.guarded_by(lock.domain()),
    {
        let mut keyframes: Vec<Arc<Locked<Keyframe>>> = Vec::new();
        let mut i: usize = 0;
        while i < self.keyframes.len()
            invariant
                i <= self.keyframes.len(),
                self.guarded_by(guard.domain()),
                keyframes@.len() == i,
                forall|j: int|
                    0 <= j < i ==> (#[trigger] keyframes@[j]).value()@ == self.keyframes@[j].value()@,
                keyframes_within(keyframes@, set![lock.domain()]),
            decreases self.keyframes.len() - i,
        {
            let keyframe = self.keyframes[i].read_with(guard).deep_clone_with_lock(lock, guard);
            keyframes.push(Arc::new(lock.wrap(keyframe)));
            i += 1;
        }
        let copy = KeyframesRule { name: self.name.clone(), keyframes };
        assert(keyframes_view(copy.keyframes@) =~= keyframes_view(self.keyframes@));
        copy
    }
}

} // verus!
