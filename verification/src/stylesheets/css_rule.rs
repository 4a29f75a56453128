//! A CSS rule, of any kind.
use vstd::prelude::*;
use std::sync::Arc;
use crate::parser::{NestingContext, ParserContext};
use crate::properties::PropertyDeclarationBlock;
use crate::shared_lock::{Locked, SharedRwLock, SharedRwLockReadGuard};
use crate::stylesheets::input::{source_location_at, Input, SourceLocation};
use crate::stylesheets::rule_list::{rules_within, CssRules};
use crate::stylesheets::rule_parser::{
    insert_outcome, parse_property_declaration_list, rule_types_of, InsertRuleContext, State,
    TopLevelRuleParser,
};
use crate::stylesheets::rule_view::{css_text, spec_body_kind, BodyKind, RuleView};
use crate::stylesheets::rules::{
    keyframes_view, keyframes_within, ContainerRule, CounterStyleRule, DeclarationsRule,
    DescriptorsRule, DocumentRule, FontFaceRule, FontFeatureValuesRule, FontPaletteValuesRule,
    GroupRule, ImportRule, Keyframe, KeyframesRule, LayerBlockRule, LayerStatementRule, MarginRule,
    MediaRule, NamespaceRule, NestedDeclarationsRule, PageRule, PositionTryRule, PropertyRule,
    ScopeRule, StartingStyleRule, StatementRule, StyleRule, SupportsRule,
};
use crate::stylesheets::stylesheet::{AllowImportRules, StylesheetContents};
use crate::stylesheets::{CssRuleType, RulesMutateError};

verus! {

/// A CSS rule.
///
/// Every rule is held by a counted reference. A rule that can be edited as a
/// whole sits in a cell; a rule that cannot is held as it is, and may hold
/// cells further inside.
#[derive(Debug)]
#[allow(missing_docs)]
pub enum CssRule {
    Style(Arc<Locked<StyleRule>>),
    // No Charset here, CSSCharsetRule has been removed from CSSOM
    // https://drafts.csswg.org/cssom/#changes-from-5-december-2013
    Namespace(Arc<NamespaceRule>),
    Import(Arc<Locked<ImportRule>>),
    Media(Arc<MediaRule>),
    Container(Arc<ContainerRule>),
    FontFace(Arc<Locked<FontFaceRule>>),
    FontFeatureValues(Arc<FontFeatureValuesRule>),
    FontPaletteValues(Arc<FontPaletteValuesRule>),
    CounterStyle(Arc<Locked<CounterStyleRule>>),
    Keyframes(Arc<Locked<KeyframesRule>>),
    Margin(Arc<MarginRule>),
    Supports(Arc<SupportsRule>),
    Page(Arc<Locked<PageRule>>),
    Property(Arc<PropertyRule>),
    Document(Arc<DocumentRule>),
    LayerBlock(Arc<LayerBlockRule>),
    LayerStatement(Arc<LayerStatementRule>),
    Scope(Arc<ScopeRule>),
    StartingStyle(Arc<StartingStyleRule>),
    PositionTry(Arc<Locked<PositionTryRule>>),
    NestedDeclarations(Arc<Locked<NestedDeclarationsRule>>),
}

/// Whether a rule of the given type has its heap use counted with the
/// stylesheet that holds it. The other rule types are counted by another
/// owner, or not yet counted at all.
pub open spec fn spec_measured_with_sheet(rule_type: CssRuleType) -> bool {
    match rule_type {
        CssRuleType::Style
        | CssRuleType::Media
        | CssRuleType::Container
        | CssRuleType::Margin
        | CssRuleType::Supports
        | CssRuleType::Page
        | CssRuleType::Property
        | CssRuleType::Document
        | CssRuleType::StartingStyle
        | CssRuleType::Scope
        | CssRuleType::PositionTry
        | CssRuleType::NestedDeclarations => true,
        _ => false,
    }
}

/// Whether a rule of the given type has its heap use counted with the
/// stylesheet that holds it.
#[verifier::when_used_as_spec(spec_measured_with_sheet)]
pub fn measured_with_sheet(rule_type: CssRuleType) -> (measured: bool)
    ensures
        measured == spec_measured_with_sheet(rule_type),
{
    match rule_type {
        CssRuleType::Style
        | CssRuleType::Media
        | CssRuleType::Container
        | CssRuleType::Margin
        | CssRuleType::Supports
        | CssRuleType::Page
        | CssRuleType::Property
        | CssRuleType::Document
        | CssRuleType::StartingStyle
        | CssRuleType::Scope
        | CssRuleType::PositionTry
        | CssRuleType::NestedDeclarations => true,
        _ => false,
    }
}

impl CssRule {
    /// The type of the rule, by its variant.
    pub open spec fn spec_rule_type(&self) -> CssRuleType {
        match self {
            CssRule::Style(_) => CssRuleType::Style,
            CssRule::Import(_) => CssRuleType::Import,
            CssRule::Media(_) => CssRuleType::Media,
            CssRule::FontFace(_) => CssRuleType::FontFace,
            CssRule::FontFeatureValues(_) => CssRuleType::FontFeatureValues,
            CssRule::FontPaletteValues(_) => CssRuleType::FontPaletteValues,
            CssRule::CounterStyle(_) => CssRuleType::CounterStyle,
            CssRule::Keyframes(_) => CssRuleType::Keyframes,
            CssRule::Margin(_) => CssRuleType::Margin,
            CssRule::Namespace(_) => CssRuleType::Namespace,
            CssRule::Supports(_) => CssRuleType::Supports,
            CssRule::Page(_) => CssRuleType::Page,
            CssRule::Property(_) => CssRuleType::Property,
            CssRule::Document(_) => CssRuleType::Document,
            CssRule::LayerBlock(_) => CssRuleType::LayerBlock,
            CssRule::LayerStatement(_) => CssRuleType::LayerStatement,
            CssRule::Container(_) => CssRuleType::Container,
            CssRule::Scope(_) => CssRuleType::Scope,
            CssRule::StartingStyle(_) => CssRuleType::StartingStyle,
            CssRule::PositionTry(_) => CssRuleType::PositionTry,
            CssRule::NestedDeclarations(_) => CssRuleType::NestedDeclarations,
        }
    }

    /// The content of the rule.
    pub open spec fn view(&self) -> RuleView
        decreases self,
    {
        match self {
            CssRule::Style(lock) => lock.value()@,
            CssRule::Namespace(rule) => rule.rule_view(CssRuleType::Namespace),
            CssRule::Import(lock) => lock.value().rule_view(CssRuleType::Import),
            CssRule::Media(rule) => rule.rule_view(CssRuleType::Media),
            CssRule::Container(rule) => rule.rule_view(CssRuleType::Container),
            CssRule::FontFace(lock) => lock.value().rule_view(CssRuleType::FontFace),
            CssRule::FontFeatureValues(rule) => rule.rule_view(CssRuleType::FontFeatureValues),
            CssRule::FontPaletteValues(rule) => rule.rule_view(CssRuleType::FontPaletteValues),
            CssRule::CounterStyle(lock) => lock.value().rule_view(CssRuleType::CounterStyle),
            CssRule::Keyframes(lock) => lock.value()@,
            CssRule::Margin(rule) => rule.rule_view(CssRuleType::Margin),
            CssRule::Supports(rule) => rule.rule_view(CssRuleType::Supports),
            CssRule::Page(lock) => lock.value()@,
            CssRule::Property(rule) => rule.rule_view(CssRuleType::Property),
            CssRule::Document(rule) => rule.rule_view(CssRuleType::Document),
            CssRule::LayerBlock(rule) => rule.rule_view(CssRuleType::LayerBlock),
            CssRule::LayerStatement(rule) => rule.rule_view(CssRuleType::LayerStatement),
            CssRule::Scope(rule) => rule.rule_view(CssRuleType::Scope),
            CssRule::StartingStyle(rule) => rule.rule_view(CssRuleType::StartingStyle),
            CssRule::PositionTry(lock) => lock.value().rule_view(CssRuleType::PositionTry),
            CssRule::NestedDeclarations(lock) => lock.value()@,
        }
    }

    /// Whether every cell of this rule belongs to one of the given domains.
    /// A rule that holds no cell meets this for any set of domains.
    pub open spec fn cells_within(&self, domains: Set<u64>) -> bool
        decreases self,
    {
        match self {
            CssRule::Style(lock) => domains.contains(lock.domain()) && lock.value().cells_within(
                domains,
            ),
            CssRule::Namespace(_) => true,
            CssRule::Import(lock) => domains.contains(lock.domain()),
            CssRule::Media(rule) => rule.cells_within(domains),
            CssRule::Container(rule) => rule.cells_within(domains),
            CssRule::FontFace(lock) => domains.contains(lock.domain()),
            CssRule::FontFeatureValues(_) => true,
            CssRule::FontPaletteValues(_) => true,
            CssRule::CounterStyle(lock) => domains.contains(lock.domain()),
            CssRule::Keyframes(lock) => domains.contains(lock.domain()) && lock.value().cells_within(
                domains,
            ),
            CssRule::Margin(rule) => rule.cells_within(domains),
            CssRule::Supports(rule) => rule.cells_within(domains),
            CssRule::Page(lock) => domains.contains(lock.domain()) && lock.value().cells_within(
                domains,
            ),
            CssRule::Property(_) => true,
            CssRule::Document(rule) => rule.cells_within(domains),
            CssRule::LayerBlock(rule) => rule.cells_within(domains),
            CssRule::LayerStatement(_) => true,
            CssRule::Scope(rule) => rule.cells_within(domains),
            CssRule::StartingStyle(rule) => rule.cells_within(domains),
            CssRule::PositionTry(lock) => domains.contains(lock.domain()) && lock.value().cells_within(
                domains,
            ),
            CssRule::NestedDeclarations(lock) => domains.contains(lock.domain())
                && lock.value().cells_within(domains),
        }
    }

    /// Whether every cell of this rule belongs to the given domain.
    pub open spec fn guarded_by(&self, domain: u64) -> bool {
        self.cells_within(set![domain])
    }

    /// Where in its text the rule was found, for the rules that keep it: the
    /// nested-declarations rules.
    pub open spec fn source_location(&self) -> Option<SourceLocation> {
        match self {
            CssRule::NestedDeclarations(lock) => Some(lock.value().source_location),
            _ => None,
        }
    }

    /// Whether a guard of the given domain opens none of the cells of this
    /// rule.
    pub open spec fn closed_to(&self, domain: u64) -> bool {
        self.cells_within(Set::full().remove(domain))
    }

    /// The statement rule of the given type with the given prelude.
    pub fn new_statement(rule_type: CssRuleType, prelude: String, lock: &SharedRwLock) -> (rule: CssRule)
        requires
            spec_body_kind(rule_type) == BodyKind::Statement,
        ensures
            rule@ == (RuleView { rule_type, prelude: prelude@, block: Seq::empty(), rules: None }),
            rule.guarded_by(lock.domain()),
    {
        let statement = StatementRule { prelude };
        match rule_type {
            CssRuleType::Import => CssRule::Import(Arc::new(lock.wrap(statement))),
            CssRuleType::Namespace => CssRule::Namespace(Arc::new(statement)),
            _ => CssRule::LayerStatement(Arc::new(statement)),
        }
    }

    /// The group rule of the given type with the given prelude and rules. The
    /// list of rules is put into a cell of `lock`.
    pub fn new_group(rule_type: CssRuleType, prelude: String, rules: CssRules, lock: &SharedRwLock) -> (rule:
        CssRule)
        requires
            spec_body_kind(rule_type) == BodyKind::Rules,
            rules.guarded_by(lock.domain()),
        ensures
            rule@ == (RuleView { rule_type, prelude: prelude@, block: Seq::empty(), rules: Some(rules@) }),
            rule.guarded_by(lock.domain()),
    {
        let group = Arc::new(GroupRule { prelude, rules: Arc::new(lock.wrap(rules)) });
        match rule_type {
            CssRuleType::Media => CssRule::Media(group),
            CssRuleType::Container => CssRule::Container(group),
            CssRuleType::Supports => CssRule::Supports(group),
            CssRuleType::Document => CssRule::Document(group),
            CssRuleType::LayerBlock => CssRule::LayerBlock(group),
            CssRuleType::Scope => CssRule::Scope(group),
            _ => CssRule::StartingStyle(group),
        }
    }

    /// The rule of the given type that holds the given declarations behind
    /// the given prelude. What of it can be edited is put into cells of
    /// `lock`.
    pub fn new_declarations(
        rule_type: CssRuleType,
        prelude: String,
        block: PropertyDeclarationBlock,
        lock: &SharedRwLock,
    ) -> (rule: CssRule)
        requires
            spec_body_kind(rule_type) == BodyKind::Declarations,
            rule_type != CssRuleType::Keyframe,
        ensures
            rule@ == (RuleView { rule_type, prelude: prelude@, block: block@, rules: None }),
            rule.guarded_by(lock.domain()),
    {
        match rule_type {
            CssRuleType::Margin => CssRule::Margin(
                Arc::new(DeclarationsRule { prelude, block: Arc::new(lock.wrap(block)) }),
            ),
            CssRuleType::PositionTry => CssRule::PositionTry(
                Arc::new(lock.wrap(DeclarationsRule { prelude, block: Arc::new(lock.wrap(block)) })),
            ),
            CssRuleType::FontFace => CssRule::FontFace(
                Arc::new(lock.wrap(DescriptorsRule { prelude, block })),
            ),
            CssRuleType::CounterStyle => CssRule::CounterStyle(
                Arc::new(lock.wrap(DescriptorsRule { prelude, block })),
            ),
            CssRuleType::FontFeatureValues => CssRule::FontFeatureValues(
                Arc::new(DescriptorsRule { prelude, block }),
            ),
            CssRuleType::FontPaletteValues => CssRule::FontPaletteValues(
                Arc::new(DescriptorsRule { prelude, block }),
            ),
            _ => CssRule::Property(Arc::new(DescriptorsRule { prelude, block })),
        }
    }

    /// The style rule or page rule with the given selectors, declarations
    /// and nested rules, in cells of `lock`.
    pub fn new_style_or_page(
        rule_type: CssRuleType,
        selectors: String,
        block: PropertyDeclarationBlock,
        rules: Option<CssRules>,
        lock: &SharedRwLock,
    ) -> (rule: CssRule)
        requires
            spec_body_kind(rule_type) == BodyKind::DeclarationsAndRules,
            rules matches Some(list) ==> list.guarded_by(lock.domain()),
        ensures
            rule@ == (RuleView {
                rule_type,
                prelude: selectors@,
                block: block@,
                rules: match rules {
                    Some(list) => Some(list@),
                    None => None,
                },
            }),
            rule.guarded_by(lock.domain()),
    {
        let rules = match rules {
            Some(list) => Some(Arc::new(lock.wrap(list))),
            None => None,
        };
        let block = Arc::new(lock.wrap(block));
        match rule_type {
            CssRuleType::Style => CssRule::Style(Arc::new(lock.wrap(StyleRule { selectors, rules, block }))),
            _ => CssRule::Page(Arc::new(lock.wrap(PageRule { selectors, rules, block }))),
        }
    }

    /// The `@keyframes` rule with the given name and keyframes, in a cell of
    /// `lock`.
    pub fn new_keyframes(name: String, keyframes: Vec<Arc<Locked<Keyframe>>>, lock: &SharedRwLock) -> (rule:
        CssRule)
        requires
            keyframes_within(keyframes@, set![lock.domain()]),
        ensures
            rule@ == (RuleView {
                rule_type: CssRuleType::Keyframes,
                prelude: name@,
                block: Seq::empty(),
                rules: Some(keyframes_view(keyframes@)),
            }),
            rule.guarded_by(lock.domain()),
    {
        CssRule::Keyframes(Arc::new(lock.wrap(KeyframesRule { name, keyframes })))
    }

    /// The nested-declarations rule of the given declarations, found at the
    /// given place, in cells of `lock`.
    pub fn new_nested_declarations(
        block: PropertyDeclarationBlock,
        source_location: SourceLocation,
        lock: &SharedRwLock,
    ) -> (rule: CssRule)
        ensures
            rule@ == (RuleView {
                rule_type: CssRuleType::NestedDeclarations,
                prelude: Seq::empty(),
                block: block@,
                rules: None,
            }),
            rule.source_location() == Some(source_location),
            rule.guarded_by(lock.domain()),
    {
        CssRule::NestedDeclarations(
            Arc::new(
                lock.wrap(NestedDeclarationsRule { block: Arc::new(lock.wrap(block)), source_location }),
            ),
        )
    }

    /// Whether the guard opens every cell of this rule: whether the rule can
    /// be read with it.
    pub fn is_guarded_by(&self, guard: &SharedRwLockReadGuard) -> (guarded: bool)
        ensures
            guarded == self.guarded_by(guard.domain()),
        decreases self,
    {
        match self {
            CssRule::Style(lock) => match lock.try_read_with(guard) {
                Some(rule) => rule.is_guarded_by(guard),
                None => false,
            },
            CssRule::Page(lock) => match lock.try_read_with(guard) {
                Some(rule) => rule.is_guarded_by(guard),
                None => false,
            },
            CssRule::Keyframes(lock) => match lock.try_read_with(guard) {
                Some(rule) => rule.is_guarded_by(guard),
                None => false,
            },
            CssRule::PositionTry(lock) => match lock.try_read_with(guard) {
                Some(rule) => rule.is_guarded_by(guard),
                None => false,
            },
            CssRule::NestedDeclarations(lock) => match lock.try_read_with(guard) {
                Some(rule) => rule.is_guarded_by(guard),
                None => false,
            },
            CssRule::Import(lock) => lock.is_guarded_by(guard),
            CssRule::FontFace(lock) => lock.is_guarded_by(guard),
            CssRule::CounterStyle(lock) => lock.is_guarded_by(guard),
            CssRule::Media(rule) => rule.is_guarded_by(guard),
            CssRule::Container(rule) => rule.is_guarded_by(guard),
            CssRule::Supports(rule) => rule.is_guarded_by(guard),
            CssRule::Document(rule) => rule.is_guarded_by(guard),
            CssRule::LayerBlock(rule) => rule.is_guarded_by(guard),
            CssRule::Scope(rule) => rule.is_guarded_by(guard),
            CssRule::StartingStyle(rule) => rule.is_guarded_by(guard),
            CssRule::Margin(rule) => rule.is_guarded_by(guard),
            CssRule::Namespace(_)
            | CssRule::FontFeatureValues(_)
            | CssRule::FontPaletteValues(_)
            | CssRule::Property(_)
            | CssRule::LayerStatement(_) => true,
        }
    }

    /// The heap use to report for this rule, from what was measured of it:
    /// `shallow`, the size of the allocation that holds the rule itself, and
    /// `deep`, the size of what the rule owns beyond that.
    ///
    /// Not all rule types are counted here: those that another owner
    /// measures, and those that are not yet measured at all, report 0.
    pub fn size_of(&self, shallow: usize, deep: usize) -> (size: usize)
        requires
            measured_with_sheet(self.spec_rule_type()) ==> shallow + deep <= usize::MAX,
        ensures
            size == if measured_with_sheet(self.spec_rule_type()) {
                shallow + deep
            } else {
                0
            },
    {
        match self {
            // Not all fields are currently fully measured. Extra measurement
            // may be added later.
            CssRule::Namespace(_) => 0,
            // The stylesheet of an import rule is measured with the list of
            // child sheets of the sheet that imports it.
            CssRule::Import(_) => 0,
            CssRule::Style(_) => shallow + deep,
            CssRule::Media(_) => shallow + deep,
            CssRule::Container(_) => shallow + deep,
            CssRule::FontFace(_) => 0,
            CssRule::FontFeatureValues(_) => 0,
            CssRule::FontPaletteValues(_) => 0,
            CssRule::CounterStyle(_) => 0,
            CssRule::Keyframes(_) => 0,
            CssRule::Margin(_) => shallow + deep,
            CssRule::Supports(_) => shallow + deep,
            CssRule::Page(_) => shallow + deep,
            CssRule::Property(_) => shallow + deep,
            CssRule::Document(_) => shallow + deep,
            CssRule::StartingStyle(_) => shallow + deep,
            CssRule::LayerBlock(_) | CssRule::LayerStatement(_) => 0,
            CssRule::Scope(_) => shallow + deep,
            CssRule::PositionTry(_) => shallow + deep,
            CssRule::NestedDeclarations(_) => shallow + deep,
        }
    }

    /// Whether this is a nested-declarations rule without declarations. Of a
    /// rule of another kind nothing is read, and any guard will do.
    pub fn is_empty_nested_declarations(&self, guard: &SharedRwLockReadGuard) -> (empty: bool)
        requires
            self is NestedDeclarations ==> self.guarded_by(guard.domain()),
        ensures
            empty == self@.is_empty_nested_declarations(),
    {
        match self {
            CssRule::NestedDeclarations(lock) => lock.read_with(guard).block.read_with(
                guard,
            ).is_empty(),
            _ => false,
        }
    }

    /// Returns the CSSOM rule type of this rule.
    #[verifier::when_used_as_spec(spec_rule_type)]
    pub fn rule_type(&self) -> (rule_type: CssRuleType)
        ensures
            rule_type == self.spec_rule_type(),
            rule_type == self@.rule_type,
    {
        match self {
            CssRule::Style(_) => CssRuleType::Style,
            CssRule::Import(_) => CssRuleType::Import,
            CssRule::Media(_) => CssRuleType::Media,
            CssRule::FontFace(_) => CssRuleType::FontFace,
            CssRule::FontFeatureValues(_) => CssRuleType::FontFeatureValues,
            CssRule::FontPaletteValues(_) => CssRuleType::FontPaletteValues,
            CssRule::CounterStyle(_) => CssRuleType::CounterStyle,
            CssRule::Keyframes(_) => CssRuleType::Keyframes,
            CssRule::Margin(_) => CssRuleType::Margin,
            CssRule::Namespace(_) => CssRuleType::Namespace,
            CssRule::Supports(_) => CssRuleType::Supports,
            CssRule::Page(_) => CssRuleType::Page,
            CssRule::Property(_) => CssRuleType::Property,
            CssRule::Document(_) => CssRuleType::Document,
            CssRule::LayerBlock(_) => CssRuleType::LayerBlock,
            CssRule::LayerStatement(_) => CssRuleType::LayerStatement,
            CssRule::Container(_) => CssRuleType::Container,
            CssRule::Scope(_) => CssRuleType::Scope,
            CssRule::StartingStyle(_) => CssRuleType::StartingStyle,
            CssRule::PositionTry(_) => CssRuleType::PositionTry,
            CssRule::NestedDeclarations(_) => CssRuleType::NestedDeclarations,
        }
    }

    /// Parse a CSS rule.
    ///
    /// This mostly implements steps 3..7 of
    /// <https://drafts.csswg.org/cssom/#insert-a-css-rule>: the text is parsed
    /// as one rule for the position of `insert_rule_context`, in the context
    /// of the parent style sheet, into cells of `shared_lock`.
    ///
    /// An index beyond the end of the list of the context is refused with
    /// `IndexSize`, whatever the text. A rule that may not stand at the
    /// position is an error, whatever else the text holds. Text that is no
    /// rule is taken as a list of declarations where the position is inside a
    /// style or page rule, and gives the nested-declarations rule of its
    /// declarations if it holds one at least. Any other text is a syntax
    /// error: also the text of a rule in which a nested rule is malformed. A
    /// nested rule that is well formed, but not permitted inside the rules
    /// that enclose it, those of the position counted in, is left out of the
    /// rule that is returned.
    pub fn parse(
        css: &str,
        insert_rule_context: InsertRuleContext,
        parent_stylesheet_contents: &StylesheetContents,
        shared_lock: &SharedRwLock,
        allow_import_rules: AllowImportRules,
    ) -> (result: Result<CssRule, RulesMutateError>)
        ensures
            match result {
                Ok(rule) => insert_outcome(
                    css@,
                    rule_types_of(insert_rule_context.rule_list@),
                    insert_rule_context.index as int,
                    insert_rule_context.containing_rule_types,
                    allow_import_rules == AllowImportRules::Yes,
                ) == Ok::<RuleView, RulesMutateError>(rule@) && rule.guarded_by(shared_lock.domain())
                    && (rule is NestedDeclarations ==> rule.source_location() == Some(
                    source_location_at(css@, css@.len() as int),
                )),
                Err(error) => insert_outcome(
                    css@,
                    rule_types_of(insert_rule_context.rule_list@),
                    insert_rule_context.index as int,
                    insert_rule_context.containing_rule_types,
                    allow_import_rules == AllowImportRules::Yes,
                ) == Err::<RuleView, RulesMutateError>(error),
            },
    {
        if insert_rule_context.index > insert_rule_context.rule_list.len() {
            return Err(RulesMutateError::IndexSize);
        }
        let mut context = ParserContext::new(
            parent_stylesheet_contents.origin,
            &parent_stylesheet_contents.url_data,
            None,
            parent_stylesheet_contents.quirks_mode,
            &parent_stylesheet_contents.namespaces,
        );
        // Override the nesting context with existing data.
        context.nesting_context = NestingContext::new(
            insert_rule_context.containing_rule_types,
            insert_rule_context.parse_relative_rule_type,
        );

        let state = if !insert_rule_context.containing_rule_types.is_empty() {
            State::Body
        } else if insert_rule_context.index == 0 {
            State::Start
        } else {
            let index = insert_rule_context.index;
            insert_rule_context.max_rule_state_at_index(index - 1)
        };

        let input = Input::new(css);

        // nested rules are in the body state
        let mut parser = TopLevelRuleParser {
            context,
            shared_lock,
            state,
            dom_error: None,
            insert_rule_context: Some(insert_rule_context),
            allow_import_rules,
        };

        if let Some(rule) = parser.parse_one_rule(&input) {
            return Ok(rule);
        }
        let error = match parser.dom_error {
            Some(error) => error,
            None => RulesMutateError::Syntax,
        };
        // If new rule is a syntax error, and nested is set, perform the following substeps:
        if matches!(error, RulesMutateError::Syntax) && parser.can_parse_declarations() {
            let declarations = parse_property_declaration_list(&parser.context, &input);
            if !declarations.is_empty() {
                return Ok(
                    CssRule::new_nested_declarations(
                        declarations,
                        input.source_location(input.len()),
                        parser.shared_lock,
                    ),
                );
            }
        }
        Err(error)
    }

    /// Deep clones this rule.
    ///
    /// The copy says what this rule says, and every cell of it belongs to
    /// `lock`. A rule that is never edited after it was made (`@namespace`,
    /// `@font-feature-values`, `@font-palette-values`, `@property`, the
    /// `@layer` statement) is shared with the copy, by one more reference to
    /// it. Any other rule is copied into cells of its own, and so are the
    /// rules nested in it.
    pub fn deep_clone_with_lock(&self, lock: &SharedRwLock, guard: &SharedRwLockReadGuard) -> (copy:
        CssRule)
        requires
            self.guarded_by(guard.domain()),
        ensures
            copy@ == self@,
            copy.spec_rule_type() == self.spec_rule_type(),
            copy.source_location() == self.source_location(),
            copy.guarded_by(lock.domain()),
        decreases self,
    {
        match self {
            CssRule::Namespace(arc) => CssRule::Namespace(arc.clone()),
            CssRule::Import(arc) => {
                let rule = arc.read_with(guard).duplicate();
                CssRule::Import(Arc::new(lock.wrap(rule)))
            },
            CssRule::Style(arc) => {
                let rule = arc.read_with(guard);
                CssRule::Style(Arc::new(lock.wrap(rule.deep_clone_with_lock(lock, guard))))
            },
            CssRule::Container(arc) => {
                CssRule::Container(Arc::new(arc.deep_clone_with_lock(lock, guard)))
            },
            CssRule::Media(arc) => { CssRule::Media(Arc::new(arc.deep_clone_with_lock(lock, guard))) },
            CssRule::FontFace(arc) => {
                let rule = arc.read_with(guard);
                CssRule::FontFace(Arc::new(lock.wrap(rule.duplicate())))
            },
            CssRule::FontFeatureValues(arc) => CssRule::FontFeatureValues(arc.clone()),
            CssRule::FontPaletteValues(arc) => CssRule::FontPaletteValues(arc.clone()),
            CssRule::CounterStyle(arc) => {
                let rule = arc.read_with(guard);
                CssRule::CounterStyle(Arc::new(lock.wrap(rule.duplicate())))
            },
            CssRule::Keyframes(arc) => {
                let rule = arc.read_with(guard);
                CssRule::Keyframes(Arc::new(lock.wrap(rule.deep_clone_with_lock(lock, guard))))
            },
            CssRule::Margin(arc) => {
                CssRule::Margin(Arc::new(arc.deep_clone_with_lock(lock, guard)))
            },
            CssRule::Supports(arc) => {
                CssRule::Supports(Arc::new(arc.deep_clone_with_lock(lock, guard)))
            },
            CssRule::Page(arc) => {
                let rule = arc.read_with(guard);
                CssRule::Page(Arc::new(lock.wrap(rule.deep_clone_with_lock(lock, guard))))
            },
            CssRule::Property(arc) => {
                // @property rules are immutable, so we don't need any of the `Locked`
                // shenanigans, actually, and can just share the rule.
                CssRule::Property(arc.clone())
            },
            CssRule::Document(arc) => {
                CssRule::Document(Arc::new(arc.deep_clone_with_lock(lock, guard)))
            },
            CssRule::LayerStatement(arc) => CssRule::LayerStatement(arc.clone()),
            CssRule::LayerBlock(arc) => {
                CssRule::LayerBlock(Arc::new(arc.deep_clone_with_lock(lock, guard)))
            },
            CssRule::Scope(arc) => { CssRule::Scope(Arc::new(arc.deep_clone_with_lock(lock, guard))) },
            CssRule::StartingStyle(arc) => {
                CssRule::StartingStyle(Arc::new(arc.deep_clone_with_lock(lock, guard)))
            },
            CssRule::PositionTry(arc) => {
                let rule = arc.read_with(guard);
                CssRule::PositionTry(Arc::new(lock.wrap(rule.deep_clone_with_lock(lock, guard))))
            },
            CssRule::NestedDeclarations(arc) => {
                let decls = arc.read_with(guard);
                CssRule::NestedDeclarations(Arc::new(lock.wrap(decls.deep_clone_with_lock(lock, guard))))
            },
        }
    }

    /// Deep clones this rule, if the guard opens every cell of it. A guard
    /// that does not, which is one of another lock domain, gets nothing: no
    /// rule is made of what it may not read.
    pub fn try_deep_clone_with_lock(&self, lock: &SharedRwLock, guard: &SharedRwLockReadGuard) -> (copy:
        Option<CssRule>)
        ensures
            match copy {
                Some(copy) => self.guarded_by(guard.domain()) && copy@ == self@ && copy.spec_rule_type()
                    == self.spec_rule_type() && copy.source_location() == self.source_location()
                    && copy.guarded_by(lock.domain()),
                None => !self.guarded_by(guard.domain()),
            },
    {
        if self.is_guarded_by(guard) {
            Some(self.deep_clone_with_lock(lock, guard))
        } else {
            None
        }
    }

    /// Serializes the rule onto `dest`, if the guard opens every cell of it,
    /// and says whether it did. With a guard that does not, which is one of
    /// another lock domain, nothing is written.
    pub fn try_to_css(&self, guard: &SharedRwLockReadGuard, dest: &mut String) -> (written: bool)
        ensures
            written == self.guarded_by(guard.domain()),
            written ==> final(dest)@ == old(dest)@ + css_text(self@),
            !written ==> final(dest)@ == old(dest)@,
    {
        if self.is_guarded_by(guard) {
            self.to_css(guard, dest);
            true
        } else {
            false
        }
    }

    /// Serializes the rule onto `dest`, as
    /// <https://drafts.csswg.org/cssom/#serialize-a-css-rule> has it.
    pub fn to_css(&self, guard: &SharedRwLockReadGuard, dest: &mut String)
        requires
            self.guarded_by(guard.domain()),
        ensures
            final(dest)@ == old(dest)@ + css_text(self@),
        decreases self,
    {
        match self {
            CssRule::Namespace(rule) => rule.to_css(CssRuleType::Namespace, dest),
            CssRule::Import(lock) => lock.read_with(guard).to_css(CssRuleType::Import, dest),
            CssRule::Style(lock) => lock.read_with(guard).to_css(guard, dest),
            CssRule::FontFace(lock) => lock.read_with(guard).to_css(CssRuleType::FontFace, dest),
            CssRule::FontFeatureValues(rule) => rule.to_css(CssRuleType::FontFeatureValues, dest),
            CssRule::FontPaletteValues(rule) => rule.to_css(CssRuleType::FontPaletteValues, dest),
            CssRule::CounterStyle(lock) => lock.read_with(guard).to_css(
                CssRuleType::CounterStyle,
                dest,
            ),
            CssRule::Keyframes(lock) => lock.read_with(guard).to_css(guard, dest),
            CssRule::Margin(rule) => rule.to_css(CssRuleType::Margin, guard, dest),
            CssRule::Media(rule) => rule.to_css(CssRuleType::Media, guard, dest),
            CssRule::Supports(rule) => rule.to_css(CssRuleType::Supports, guard, dest),
            CssRule::Page(lock) => lock.read_with(guard).to_css(guard, dest),
            CssRule::Property(rule) => rule.to_css(CssRuleType::Property, dest),
            CssRule::Document(rule) => rule.to_css(CssRuleType::Document, guard, dest),
            CssRule::LayerBlock(rule) => rule.to_css(CssRuleType::LayerBlock, guard, dest),
            CssRule::LayerStatement(rule) => rule.to_css(CssRuleType::LayerStatement, dest),
            CssRule::Container(rule) => rule.to_css(CssRuleType::Container, guard, dest),
            CssRule::Scope(rule) => rule.to_css(CssRuleType::Scope, guard, dest),
            CssRule::StartingStyle(rule) => rule.to_css(CssRuleType::StartingStyle, guard, dest),
            CssRule::PositionTry(lock) => lock.read_with(guard).to_css(
                CssRuleType::PositionTry,
                guard,
                dest,
            ),
            CssRule::NestedDeclarations(lock) => lock.read_with(guard).to_css(guard, dest),
        }
    }

    /// The CSS text of the rule, if the guard opens every cell of it. A guard
    /// that does not, which is one of another lock domain, gets nothing.
    pub fn try_to_css_string(&self, guard: &SharedRwLockReadGuard) -> (text: Option<String>)
        ensures
            match text {
                Some(text) => self.guarded_by(guard.domain()) && text@ == css_text(self@),
                None => !self.guarded_by(guard.domain()),
            },
    {
        if self.is_guarded_by(guard) {
            Some(self.to_css_string(guard))
        } else {
            None
        }
    }

    /// The CSS text of the rule.
    pub fn to_css_string(&self, guard: &SharedRwLockReadGuard) -> (text: String)
        requires
            self.guarded_by(guard.domain()),
        ensures
            text@ == css_text(self@),
    {
        let mut text = String::new();
        self.to_css(guard, &mut text);
        assert(text@ =~= css_text(self@));
        text
    }
}

impl Clone for CssRule {
    /// One more reference to the same rule.
    fn clone(&self) -> (copy: CssRule)
        ensures
            copy == *self,
    {
        match self {
            CssRule::Style(arc) => CssRule::Style(arc.clone()),
            CssRule::Namespace(arc) => CssRule::Namespace(arc.clone()),
            CssRule::Import(arc) => CssRule::Import(arc.clone()),
            CssRule::Media(arc) => CssRule::Media(arc.clone()),
            CssRule::Container(arc) => CssRule::Container(arc.clone()),
            CssRule::FontFace(arc) => CssRule::FontFace(arc.clone()),
            CssRule::FontFeatureValues(arc) => CssRule::FontFeatureValues(arc.clone()),
            CssRule::FontPaletteValues(arc) => CssRule::FontPaletteValues(arc.clone()),
            CssRule::CounterStyle(arc) => CssRule::CounterStyle(arc.clone()),
            CssRule::Keyframes(arc) => CssRule::Keyframes(arc.clone()),
            CssRule::Margin(arc) => CssRule::Margin(arc.clone()),
            CssRule::Supports(arc) => CssRule::Supports(arc.clone()),
            CssRule::Page(arc) => CssRule::Page(arc.clone()),
            CssRule::Property(arc) => CssRule::Property(arc.clone()),
            CssRule::Document(arc) => CssRule::Document(arc.clone()),
            CssRule::LayerBlock(arc) => CssRule::LayerBlock(arc.clone()),
            CssRule::LayerStatement(arc) => CssRule::LayerStatement(arc.clone()),
            CssRule::Scope(arc) => CssRule::Scope(arc.clone()),
            CssRule::StartingStyle(arc) => CssRule::StartingStyle(arc.clone()),
            CssRule::PositionTry(arc) => CssRule::PositionTry(arc.clone()),
            CssRule::NestedDeclarations(arc) => CssRule::NestedDeclarations(arc.clone()),
        }
    }
}

/// Cells that all belong to some domains belong to any wider set of domains.
pub proof fn lemma_cells_within_wider(rule: CssRule, narrow: Set<u64>, wide: Set<u64>)
    requires
        rule.cells_within(narrow),
        narrow.subset_of(wide),
    ensures
        rule.cells_within(wide),
    decreases rule,
{
    match rule {
        CssRule::Style(lock) => {
            if let Some(list) = lock.value().rules {
                lemma_rules_within_wider(list.value().0@, narrow, wide);
            }
        },
        CssRule::Page(lock) => {
            if let Some(list) = lock.value().rules {
                lemma_rules_within_wider(list.value().0@, narrow, wide);
            }
        },
        CssRule::Media(rule)
        | CssRule::Container(rule)
        | CssRule::Supports(rule)
        | CssRule::Document(rule)
        | CssRule::LayerBlock(rule)
        | CssRule::Scope(rule)
        | CssRule::StartingStyle(rule) => {
            lemma_rules_within_wider(rule.rules.value().0@, narrow, wide);
        },
        _ => {},
    }
}

/// The same, of the rules of a list.
pub proof fn lemma_rules_within_wider(rules: Seq<CssRule>, narrow: Set<u64>, wide: Set<u64>)
    requires
        rules_within(rules, narrow),
        narrow.subset_of(wide),
    ensures
        rules_within(rules, wide),
    decreases rules,
{
    assert forall|i: int| 0 <= i < rules.len() implies (#[trigger] rules[i]).cells_within(wide) by {
        lemma_cells_within_wider(rules[i], narrow, wide);
    }
}

/// Isolation of a deep clone.
///
/// Let `copy` be what a deep clone of `original` into the domain `target`
/// gives, where the cells of `original` belong to another domain, `source`.
/// Then a guard of `source` opens no cell of the copy, and a guard of `target`
/// opens no cell of the original: whatever is written with either guard, what
/// the other rule says stays as it was.
///
/// Cells are told apart by their domain, so this says nothing of a clone
/// into the domain of the original itself. There the two rules are kept apart
/// by ownership alone: a cell is written through `&mut` only, which a rule
/// that another reference also holds does not give.
pub proof fn lemma_deep_clone_isolation(original: CssRule, copy: CssRule, source: u64, target: u64)
    requires
        original.guarded_by(source),
        copy@ == original@,
        copy.guarded_by(target),
        source != target,
    ensures
        copy.closed_to(source),
        original.closed_to(target),
{
    lemma_cells_within_wider(copy, set![target], Set::full().remove(source));
    lemma_cells_within_wider(original, set![source], Set::full().remove(target));
}

} // verus!
