//! Parsing of rule text into rules, and the rules on where a rule may be
//! inserted.
use vstd::prelude::*;
use vstd::string::StringExecFns;
use std::sync::Arc;
use crate::parser::ParserContext;
use crate::properties::{PropertyDeclaration, PropertyDeclarationBlock};
use crate::shared_lock::{Locked, SharedRwLock};
use crate::stylesheets::css_rule::CssRule;
use crate::stylesheets::grammar;
use crate::stylesheets::grammar::{
    lemma_skip_bounds, spec_at_rule_type, spec_blocks_nesting, spec_holds_no_rules, spec_is_margin_box,
    spec_permitted_in, CharClass,
};
use crate::stylesheets::input::Input;
use crate::stylesheets::rule_list::{rules_view, rules_within, CssRules};
use crate::stylesheets::rule_view::{body_kind, spec_body_kind, BodyKind, RuleView};
use crate::stylesheets::rules::{keyframes_view, keyframes_within, Keyframe};
use crate::stylesheets::stylesheet::AllowImportRules;
use crate::stylesheets::{CssRuleType, CssRuleTypes, RulesMutateError};

verus! {

/// The current state of the parser: how far into a style sheet it is.
#[derive(Clone, Copy, Debug, PartialEq, Eq, Structural)]
pub enum State {
    /// We haven't started parsing rules.
    Start,
    /// We're parsing early `@layer` statement rules.
    EarlyLayers,
    /// We're parsing `@import` and early `@layer` statement rules.
    Imports,
    /// We're parsing `@namespace` rules.
    Namespaces,
    /// We're parsing the main body of the stylesheet.
    Body,
}

impl State {
    /// The place of the state in the order of a style sheet.
    pub open spec fn spec_rank(self) -> u8 {
        match self {
            State::Start => 1,
            State::EarlyLayers => 2,
            State::Imports => 3,
            State::Namespaces => 4,
            State::Body => 5,
        }
    }

    /// The place of the state in the order of a style sheet.
    #[verifier::when_used_as_spec(spec_rank)]
    pub fn rank(self) -> (rank: u8)
        ensures
            rank == self.spec_rank(),
    {
        match self {
            State::Start => 1,
            State::EarlyLayers => 2,
            State::Imports => 3,
            State::Namespaces => 4,
            State::Body => 5,
        }
    }
}

/// The types of the rules of a list.
pub open spec fn rule_types_of(rules: Seq<CssRule>) -> Seq<CssRuleType> {
    Seq::new(rules.len(), |i: int| rules[i].spec_rule_type())
}

/// The type of the first rule at or after `from` that is no `@layer`
/// statement.
pub open spec fn first_after_layers(types: Seq<CssRuleType>, from: int) -> Option<CssRuleType>
    decreases types.len() - from,
{
    if from < 0 || from >= types.len() {
        None
    } else if types[from] != CssRuleType::LayerStatement {
        Some(types[from])
    } else {
        first_after_layers(types, from + 1)
    }
}

/// The latest state that the rule at `index` allows of a rule before it.
///
/// Before an `@import` rule only what may precede imports can stand, before a
/// `@namespace` rule only what may precede namespaces. A `@layer` statement
/// is an early one where an `@import` or `@namespace` rule follows the layer
/// statements after it. Any other rule, and the end of the list, allow
/// everything.
pub open spec fn max_rule_state_at(types: Seq<CssRuleType>, index: int) -> State {
    if index < 0 || index >= types.len() {
        State::Body
    } else {
        match types[index] {
            CssRuleType::Import => State::Imports,
            CssRuleType::Namespace => State::Namespaces,
            CssRuleType::LayerStatement => match first_after_layers(types, index + 1) {
                Some(CssRuleType::Import) | Some(CssRuleType::Namespace) => State::EarlyLayers,
                _ => State::Body,
            },
            _ => State::Body,
        }
    }
}

/// The state in which a rule for the position `index` is parsed: the body
/// state inside any rule; at the top of a list the start; else the state that
/// the rule before the position has left.
pub open spec fn initial_state(types: Seq<CssRuleType>, index: int, containing: CssRuleTypes) -> State {
    if containing.spec_bits() != 0 {
        State::Body
    } else if index == 0 {
        State::Start
    } else {
        max_rule_state_at(types, index - 1)
    }
}

/// The state that a rule of the given type puts the parser in, from the
/// state that it is in.
pub open spec fn state_of_rule(rule_type: CssRuleType, state: State) -> State {
    match rule_type {
        CssRuleType::Import => State::Imports,
        CssRuleType::Namespace => State::Namespaces,
        CssRuleType::LayerStatement => if state.spec_rank() <= State::EarlyLayers.spec_rank() {
            State::EarlyLayers
        } else {
            State::Body
        },
        _ => State::Body,
    }
}

/// Why a rule that puts the parser in `new_state` cannot be parsed in the
/// state `state`, for insertion at the given position (a list of rule types
/// and an index into it) if there is one; nothing where it can.
///
/// - A rule whose state lies before the state of the parser, or after the
///   state that the rule at the position allows, would stand in the wrong
///   order: `HierarchyRequest`.
/// - A `@namespace` rule is refused with `InvalidState` where anything but
///   `@namespace` rules would come after it in the list.
pub open spec fn state_refusal(
    new_state: State,
    state: State,
    position: Option<(Seq<CssRuleType>, int)>,
) -> Option<RulesMutateError> {
    if state.spec_rank() > new_state.spec_rank() {
        Some(RulesMutateError::HierarchyRequest)
    } else {
        match position {
            None => None,
            Some((types, index)) => {
                if new_state.spec_rank() > max_rule_state_at(types, index).spec_rank() {
                    Some(RulesMutateError::HierarchyRequest)
                } else if new_state == State::Namespaces && exists|i: int|
                    0 <= index <= i < types.len() && #[trigger] types[i] != CssRuleType::Namespace {
                    Some(RulesMutateError::InvalidState)
                } else {
                    None
                }
            },
        }
    }
}

/// Why a rule of the given type cannot stand at the given position, inside
/// rules of the types in `containing`, for a parser in the given state;
/// nothing where it can: the error of `state_refusal` for the state of the
/// rule, else `HierarchyRequest` where the rule is not permitted inside the
/// rules that enclose the position.
pub open spec fn insert_refusal(
    rule_type: CssRuleType,
    state: State,
    position: Option<(Seq<CssRuleType>, int)>,
    containing: CssRuleTypes,
) -> Option<RulesMutateError> {
    match state_refusal(state_of_rule(rule_type, state), state, position) {
        Some(error) => Some(error),
        None => if spec_permitted_in(containing, rule_type) {
            None
        } else {
            Some(RulesMutateError::HierarchyRequest)
        },
    }
}

/// Whether bare declarations can stand inside the rules of the given types:
/// inside a style rule or a page rule.
pub open spec fn spec_can_parse_declarations(containing: CssRuleTypes) -> bool {
    containing.has(CssRuleType::Style) || containing.has(CssRuleType::Page)
}

/// What is made of text that is no rule: inside a style or page rule, the
/// nested-declarations rule of its declarations, if the text is declarations
/// and holds one at least. Anything else is a syntax error.
pub open spec fn declarations_fallback(s: Seq<char>, containing: CssRuleTypes) -> Result<
    RuleView,
    RulesMutateError,
> {
    let block = grammar::parse_declaration_list(s);
    if spec_can_parse_declarations(containing) && block.len() > 0 {
        Ok(
            RuleView {
                rule_type: CssRuleType::NestedDeclarations,
                prelude: Seq::empty(),
                block,
                rules: None,
            },
        )
    } else {
        Err(RulesMutateError::Syntax)
    }
}

/// What the parser makes of the text as one rule: the rule, or the error
/// that it notes for the caller, which is none where the text is merely no
/// rule.
pub open spec fn rule_outcome(
    s: Seq<char>,
    state: State,
    position: Option<(Seq<CssRuleType>, int)>,
    containing: CssRuleTypes,
    allow_import: bool,
) -> Result<RuleView, Option<RulesMutateError>> {
    match grammar::rule_head_type(s, 0) {
        None => Err(None),
        Some(rule_type) => {
            let refusal = insert_refusal(rule_type, state, position, containing);
            if refusal is Some {
                Err(refusal)
            } else if rule_type == CssRuleType::Import && !allow_import {
                Err(None)
            } else {
                match grammar::parse_one_rule(s, containing) {
                    Some(rule) => Ok(rule),
                    None => Err(None),
                }
            }
        },
    }
}

/// What inserting the text as a rule gives, at `index` of a list of rules of
/// the given types, inside rules of the types in `containing`.
///
/// An index beyond the end of the list is refused with `IndexSize`, whatever
/// the text. Else the text is parsed as one rule. A rule that may not stand
/// at the position is refused with the error of `insert_refusal`, whatever
/// else the text holds. Text that is no rule is taken as bare declarations
/// where the position allows them, and is a syntax error where it does not or
/// where it holds none.
///
/// Where a rule nested in the text is malformed, the text is no rule. A
/// nested rule that is well formed, but not permitted inside the rules that
/// enclose it (those in the text and those of `containing`), is left out of
/// the rule that is returned. So a text that is a rule by itself is a rule
/// of the same type at every position: see `lemma_insert_of_a_rule`.
pub open spec fn insert_outcome(
    s: Seq<char>,
    types: Seq<CssRuleType>,
    index: int,
    containing: CssRuleTypes,
    allow_import: bool,
) -> Result<RuleView, RulesMutateError> {
    if index > types.len() {
        Err(RulesMutateError::IndexSize)
    } else {
        match rule_outcome(
            s,
            initial_state(types, index, containing),
            Some((types, index)),
            containing,
            allow_import,
        ) {
            Ok(rule) => Ok(rule),
            Err(Some(error)) => Err(error),
            Err(None) => declarations_fallback(s, containing),
        }
    }
}

/// A list in front of what was parsed after it.
pub open spec fn prepend<T>(front: Seq<T>, rest: Option<(Seq<T>, int)>) -> Option<(Seq<T>, int)> {
    match rest {
        Some((items, end)) => Some((front + items, end)),
        None => None,
    }
}

proof fn lemma_prepend_push<T>(front: Seq<T>, item: T, rest: Option<(Seq<T>, int)>)
    ensures
        prepend(front, prepend(seq![item], rest)) == prepend(front.push(item), rest),
{
    if let Some((items, end)) = rest {
        assert(front + (seq![item] + items) =~= front.push(item) + items);
    }
}

proof fn lemma_prepend_empty<T>(front: Seq<T>, end: int)
    ensures
        prepend(front, Some((Seq::<T>::empty(), end))) == Some((front, end)),
{
    assert(front + Seq::<T>::empty() =~= front);
}

/// Whether the name is the given word.
fn is_word(name: &String, word: &str) -> (same: bool)
    ensures
        same == (name@ == word@),
{
    *name == String::from_str(word)
}

/// Whether the name is that of a margin box of a page.
pub fn is_margin_box(name: &String) -> (found: bool)
    ensures
        found == spec_is_margin_box(name@),
{
    is_word(name, "top-left-corner") || is_word(name, "top-left") || is_word(name, "top-center")
        || is_word(name, "top-right") || is_word(name, "top-right-corner") || is_word(
        name,
        "bottom-left-corner",
    ) || is_word(name, "bottom-left") || is_word(name, "bottom-center") || is_word(
        name,
        "bottom-right",
    ) || is_word(name, "bottom-right-corner") || is_word(name, "left-top") || is_word(
        name,
        "left-middle",
    ) || is_word(name, "left-bottom") || is_word(name, "right-top") || is_word(name, "right-middle")
        || is_word(name, "right-bottom")
}

/// The type of the at-rule with the given name, which ends in a block or in
/// a semicolon.
pub fn at_rule_type(name: &String, block: bool) -> (rule_type: Option<CssRuleType>)
    ensures
        rule_type == spec_at_rule_type(name@, block),
{
    if is_word(name, "import") {
        if block {
            None
        } else {
            Some(CssRuleType::Import)
        }
    } else if is_word(name, "namespace") {
        if block {
            None
        } else {
            Some(CssRuleType::Namespace)
        }
    } else if is_word(name, "layer") {
        if block {
            Some(CssRuleType::LayerBlock)
        } else {
            Some(CssRuleType::LayerStatement)
        }
    } else if !block {
        None
    } else if is_word(name, "media") {
        Some(CssRuleType::Media)
    } else if is_word(name, "container") {
        Some(CssRuleType::Container)
    } else if is_word(name, "supports") {
        Some(CssRuleType::Supports)
    } else if is_word(name, "-moz-document") {
        Some(CssRuleType::Document)
    } else if is_word(name, "scope") {
        Some(CssRuleType::Scope)
    } else if is_word(name, "starting-style") {
        Some(CssRuleType::StartingStyle)
    } else if is_word(name, "font-face") {
        Some(CssRuleType::FontFace)
    } else if is_word(name, "font-feature-values") {
        Some(CssRuleType::FontFeatureValues)
    } else if is_word(name, "font-palette-values") {
        Some(CssRuleType::FontPaletteValues)
    } else if is_word(name, "counter-style") {
        Some(CssRuleType::CounterStyle)
    } else if is_word(name, "property") {
        Some(CssRuleType::Property)
    } else if is_word(name, "position-try") {
        Some(CssRuleType::PositionTry)
    } else if is_word(name, "keyframes") {
        Some(CssRuleType::Keyframes)
    } else if is_word(name, "page") {
        Some(CssRuleType::Page)
    } else if is_margin_box(name) {
        Some(CssRuleType::Margin)
    } else {
        None
    }
}

/// Whether one of the rule types in the set holds no rules.
pub fn blocks_nesting(containing: CssRuleTypes) -> (blocked: bool)
    ensures
        blocked == spec_blocks_nesting(containing),
{
    let blocked = containing.contains(CssRuleType::Import) || containing.contains(
        CssRuleType::FontFace,
    ) || containing.contains(CssRuleType::Keyframes) || containing.contains(CssRuleType::Keyframe)
        || containing.contains(CssRuleType::Margin) || containing.contains(CssRuleType::Namespace)
        || containing.contains(CssRuleType::CounterStyle) || containing.contains(
        CssRuleType::FontFeatureValues,
    ) || containing.contains(CssRuleType::LayerStatement) || containing.contains(
        CssRuleType::FontPaletteValues,
    ) || containing.contains(CssRuleType::Property) || containing.contains(CssRuleType::PositionTry)
        || containing.contains(CssRuleType::NestedDeclarations);
    proof {
        if blocked {
            let ty = if containing.has(CssRuleType::Import) {
                CssRuleType::Import
            } else if containing.has(CssRuleType::FontFace) {
                CssRuleType::FontFace
            } else if containing.has(CssRuleType::Keyframes) {
                CssRuleType::Keyframes
            } else if containing.has(CssRuleType::Keyframe) {
                CssRuleType::Keyframe
            } else if containing.has(CssRuleType::Margin) {
                CssRuleType::Margin
            } else if containing.has(CssRuleType::Namespace) {
                CssRuleType::Namespace
            } else if containing.has(CssRuleType::CounterStyle) {
                CssRuleType::CounterStyle
            } else if containing.has(CssRuleType::FontFeatureValues) {
                CssRuleType::FontFeatureValues
            } else if containing.has(CssRuleType::LayerStatement) {
                CssRuleType::LayerStatement
            } else if containing.has(CssRuleType::FontPaletteValues) {
                CssRuleType::FontPaletteValues
            } else if containing.has(CssRuleType::Property) {
                CssRuleType::Property
            } else if containing.has(CssRuleType::PositionTry) {
                CssRuleType::PositionTry
            } else {
                CssRuleType::NestedDeclarations
            };
            assert(containing.has(ty) && spec_holds_no_rules(ty));
        } else {
            assert forall|ty: CssRuleType| !(containing.has(ty) && spec_holds_no_rules(ty)) by {
                match ty {
                    CssRuleType::Import => {},
                    CssRuleType::FontFace => {},
                    CssRuleType::Keyframes => {},
                    CssRuleType::Keyframe => {},
                    CssRuleType::Margin => {},
                    CssRuleType::Namespace => {},
                    CssRuleType::CounterStyle => {},
                    CssRuleType::FontFeatureValues => {},
                    CssRuleType::LayerStatement => {},
                    CssRuleType::FontPaletteValues => {},
                    CssRuleType::Property => {},
                    CssRuleType::PositionTry => {},
                    CssRuleType::NestedDeclarations => {},
                    _ => {},
                }
            }
        }
    }
    blocked
}

/// Whether a rule of type `ty` may stand where the rules of the types in
/// `containing` enclose it.
pub fn permitted_in(containing: CssRuleTypes, ty: CssRuleType) -> (permitted: bool)
    ensures
        permitted == spec_permitted_in(containing, ty),
{
    if containing.is_empty() {
        !matches!(
            ty,
            CssRuleType::Margin | CssRuleType::Keyframe | CssRuleType::NestedDeclarations
        )
    } else if blocks_nesting(containing) {
        false
    } else if containing.contains(CssRuleType::Page) {
        matches!(ty, CssRuleType::Margin)
    } else if containing.contains(CssRuleType::Style) {
        matches!(
            ty,
            CssRuleType::Style | CssRuleType::Media | CssRuleType::Container | CssRuleType::Supports
                | CssRuleType::LayerBlock | CssRuleType::Scope | CssRuleType::StartingStyle
        )
    } else {
        !matches!(
            ty,
            CssRuleType::Import | CssRuleType::Namespace | CssRuleType::Margin | CssRuleType::Keyframe
                | CssRuleType::NestedDeclarations
        )
    }
}

/// Reads the declarations that start at `from`, and says where they stop.
pub fn parse_declarations(input: &Input, from: usize) -> (result: Option<
    (PropertyDeclarationBlock, usize),
>)
    requires
        from <= input@.len(),
    ensures
        match result {
            Some((block, end)) => grammar::parse_declarations(input@, from as int) == Some(
                (block@, end as int),
            ) && from <= end <= input@.len(),
            None => grammar::parse_declarations(input@, from as int) is None,
        },
{
    let mut block = PropertyDeclarationBlock::new();
    let mut pos: usize = from;
    loop
        invariant
            from <= pos <= input@.len(),
            grammar::parse_declarations(input@, from as int) == prepend(
                block@,
                grammar::parse_declarations(input@, pos as int),
            ),
        decreases input@.len() - pos,
    {
        let start = input.skip(pos, CharClass::Whitespace);
        if start >= input.len() || input.at(start) == '}' {
            proof {
                lemma_prepend_empty(block@, start as int);
            }
            return Some((block, start));
        }
        if input.at(start) == ';' {
            pos = start + 1;
        } else {
            let stop = input.skip(start, CharClass::Text);
            if input.at(start) == '@' || input.has_at(stop, '{') {
                proof {
                    lemma_prepend_empty(block@, start as int);
                }
                return Some((block, start));
            }
            let name_end = input.skip(start, CharClass::Name);
            let colon = input.skip(name_end, CharClass::Whitespace);
            if name_end <= start || !input.has_at(colon, ':') {
                return None;
            }
            let value_start = input.skip(colon + 1, CharClass::Whitespace);
            let value_end = input.skip(value_start, CharClass::Text);
            let value = input.trimmed(value_start, value_end);
            if value.as_str().is_empty() {
                return None;
            }
            let next: usize = if input.has_at(value_end, ';') {
                value_end + 1
            } else {
                value_end
            };
            let name = input.slice(start, name_end);
            let declaration = PropertyDeclaration::new(name, value);
            proof {
                lemma_prepend_push(
                    block@,
                    declaration@,
                    grammar::parse_declarations(input@, next as int),
                );
            }
            block.push(declaration);
            pos = next;
        }
    }
}

/// Parse a list of property declarations: the declarations of a text that is
/// nothing but declarations. Any other text gives an empty block.
pub fn parse_property_declaration_list(context: &ParserContext, input: &Input) -> (block:
    PropertyDeclarationBlock)
    ensures
        block@ == grammar::parse_declaration_list(input@),
{
    match parse_declarations(input, 0) {
        Some((block, end)) => {
            if end >= input.len() {
                block
            } else {
                PropertyDeclarationBlock::new()
            }
        },
        None => PropertyDeclarationBlock::new(),
    }
}

/// Reads the keyframes that start at `from`, into cells of `lock`, and says
/// where they stop.
pub fn parse_keyframes(input: &Input, from: usize, lock: &SharedRwLock) -> (result: Option<
    (Vec<Arc<Locked<Keyframe>>>, usize),
>)
    requires
        from <= input@.len(),
    ensures
        match result {
            Some((keyframes, end)) => grammar::parse_keyframes(input@, from as int) == Some(
                (keyframes_view(keyframes@), end as int),
            ) && keyframes_within(keyframes@, set![lock.domain()]) && from <= end <= input@.len(),
            None => grammar::parse_keyframes(input@, from as int) is None,
        },
{
    let mut keyframes: Vec<Arc<Locked<Keyframe>>> = Vec::new();
    let mut pos: usize = from;
    loop
        invariant
            from <= pos <= input@.len(),
            keyframes_within(keyframes@, set![lock.domain()]),
            grammar::parse_keyframes(input@, from as int) == prepend(
                keyframes_view(keyframes@),
                grammar::parse_keyframes(input@, pos as int),
            ),
        decreases input@.len() - pos,
    {
        let start = input.skip(pos, CharClass::Whitespace);
        if start >= input.len() || input.at(start) == '}' {
            proof {
                lemma_prepend_empty(keyframes_view(keyframes@), start as int);
            }
            return Some((keyframes, start));
        }
        let stop = input.skip(start, CharClass::Text);
        let selector = input.trimmed(start, stop);
        if !input.has_at(stop, '{') || selector.as_str().is_empty() {
            return None;
        }
        match parse_declarations(input, stop + 1) {
            None => {
                return None;
            },
            Some((block, close)) => {
                if !input.has_at(close, '}') {
                    return None;
                }
                let keyframe = Keyframe { selector, block: Arc::new(lock.wrap(block)) };
                let cell = Arc::new(lock.wrap(keyframe));
                proof {
                    lemma_prepend_push(
                        keyframes_view(keyframes@),
                        cell.value()@,
                        grammar::parse_keyframes(input@, close + 1),
                    );
                    assert(keyframes_view(keyframes@.push(cell)) =~= keyframes_view(keyframes@).push(
                        cell.value()@,
                    ));
                }
                keyframes.push(cell);
                pos = close + 1;
            },
        }
    }
}

/// Reads the type of the rule that starts at `from` from its head.
pub fn rule_head_type(input: &Input, from: usize) -> (rule_type: Option<CssRuleType>)
    requires
        from <= input@.len(),
    ensures
        rule_type == grammar::rule_head_type(input@, from as int),
{
    let start = input.skip(from, CharClass::Whitespace);
    if start >= input.len() {
        None
    } else if input.at(start) == '@' {
        let name_end = input.skip(start + 1, CharClass::Name);
        let prelude_start = input.skip(name_end, CharClass::Whitespace);
        let stop = input.skip(prelude_start, CharClass::Text);
        if stop >= input.len() || input.at(stop) == '}' {
            None
        } else {
            let name = input.slice(start + 1, name_end);
            at_rule_type(&name, input.at(stop) == '{')
        }
    } else {
        let stop = input.skip(start, CharClass::Text);
        if !input.has_at(stop, '{') {
            None
        } else {
            let selectors = input.trimmed(start, stop);
            if selectors.as_str().is_empty() {
                None
            } else {
                Some(CssRuleType::Style)
            }
        }
    }
}

/// Reads the rule that starts at `from`, into cells of `lock`, and says where
/// the text goes on after it. `containing` holds the types of the rules
/// around it.
pub fn parse_rule(input: &Input, from: usize, containing: CssRuleTypes, lock: &SharedRwLock) -> (result:
    Option<(CssRule, usize)>)
    requires
        from <= input@.len(),
    ensures
        match result {
            Some((rule, end)) => grammar::parse_rule(input@, from as int, containing) == Some(
                (rule@, end as int),
            ) && rule.guarded_by(lock.domain()) && from < end <= input@.len(),
            None => grammar::parse_rule(input@, from as int, containing) is None,
        },
    decreases input@.len() - from, 0nat,
{
    let rule_type = match rule_head_type(input, from) {
        Some(rule_type) => rule_type,
        None => {
            return None;
        },
    };
    let start = input.skip(from, CharClass::Whitespace);
    if start >= input.len() {
        return None;
    }
    let name_end = if rule_type == CssRuleType::Style {
        start
    } else {
        input.skip(start + 1, CharClass::Name)
    };
    let prelude_start = if rule_type == CssRuleType::Style {
        start
    } else {
        input.skip(name_end, CharClass::Whitespace)
    };
    let stop = input.skip(prelude_start, CharClass::Text);
    if stop >= input.len() {
        return None;
    }
    let text = input.trimmed(prelude_start, stop);
    let prelude = if rule_type == CssRuleType::Margin {
        if !text.as_str().is_empty() {
            return None;
        }
        input.slice(start + 1, name_end)
    } else {
        text
    };
    let inner = containing.with(rule_type);
    match body_kind(rule_type) {
        BodyKind::Statement => Some((CssRule::new_statement(rule_type, prelude, lock), stop + 1)),
        BodyKind::Rules => match parse_rule_list(input, stop + 1, inner, lock) {
            Some((rules, close)) => {
                if input.has_at(close, '}') {
                    Some((CssRule::new_group(rule_type, prelude, rules, lock), close + 1))
                } else {
                    None
                }
            },
            None => None,
        },
        BodyKind::Keyframes => match parse_keyframes(input, stop + 1, lock) {
            Some((keyframes, close)) => {
                if input.has_at(close, '}') {
                    Some((CssRule::new_keyframes(prelude, keyframes, lock), close + 1))
                } else {
                    None
                }
            },
            None => None,
        },
        BodyKind::Declarations => match parse_declarations(input, stop + 1) {
            Some((block, close)) => {
                if input.has_at(close, '}') {
                    Some((CssRule::new_declarations(rule_type, prelude, block, lock), close + 1))
                } else {
                    None
                }
            },
            None => None,
        },
        BodyKind::DeclarationsAndRules => match parse_declarations(input, stop + 1) {
            Some((block, next)) => match parse_rule_list(input, next, inner, lock) {
                Some((rules, close)) => {
                    if input.has_at(close, '}') {
                        let nested = if rules.is_empty() {
                            None
                        } else {
                            Some(rules)
                        };
                        Some((CssRule::new_style_or_page(rule_type, prelude, block, nested, lock), close + 1))
                    } else {
                        None
                    }
                },
                None => None,
            },
            None => None,
        },
        BodyKind::Bare => None,
    }
}

/// Reads the rules that start at `from`, into cells of `lock`, up to the `}`
/// that closes their block or to the end of the text, and says where they
/// stop. Rules that are not permitted inside the rules of the types in
/// `containing` are left out.
pub fn parse_rule_list(input: &Input, from: usize, containing: CssRuleTypes, lock: &SharedRwLock) -> (result:
    Option<(CssRules, usize)>)
    requires
        from <= input@.len(),
    ensures
        match result {
            Some((rules, end)) => grammar::parse_rule_list(input@, from as int, containing) == Some(
                (rules@, end as int),
            ) && rules.guarded_by(lock.domain()) && from <= end <= input@.len(),
            None => grammar::parse_rule_list(input@, from as int, containing) is None,
        },
    decreases input@.len() - from, 1nat,
{
    let mut rules: Vec<CssRule> = Vec::new();
    let mut pos: usize = from;
    loop
        invariant
            from <= pos <= input@.len(),
            rules_within(rules@, set![lock.domain()]),
            grammar::parse_rule_list(input@, from as int, containing) == prepend(
                rules_view(rules@),
                grammar::parse_rule_list(input@, pos as int, containing),
            ),
        decreases input@.len() - pos,
    {
        let start = input.skip(pos, CharClass::Whitespace);
        if start >= input.len() || input.at(start) == '}' {
            proof {
                lemma_prepend_empty(rules_view(rules@), start as int);
            }
            return Some((CssRules(rules), start));
        }
        match parse_rule(input, start, containing, lock) {
            None => {
                return None;
            },
            Some((rule, next)) => {
                if permitted_in(containing, rule.rule_type()) {
                    proof {
                        lemma_prepend_push(
                            rules_view(rules@),
                            rule@,
                            grammar::parse_rule_list(input@, next as int, containing),
                        );
                        assert(rules_view(rules@.push(rule)) =~= rules_view(rules@).push(rule@));
                    }
                    rules.push(rule);
                }
                pos = next;
            },
        }
    }
}

/// Reads the one rule that the whole text is, into cells of `lock`.
pub fn parse_one_rule(input: &Input, containing: CssRuleTypes, lock: &SharedRwLock) -> (result: Option<
    CssRule,
>)
    ensures
        match result {
            Some(rule) => grammar::parse_one_rule(input@, containing) == Some(rule@)
                && rule.guarded_by(lock.domain()),
            None => grammar::parse_one_rule(input@, containing) is None,
        },
{
    match parse_rule(input, 0, containing, lock) {
        Some((rule, end)) => {
            if input.skip(end, CharClass::Whitespace) >= input.len() {
                Some(rule)
            } else {
                None
            }
        },
        None => None,
    }
}

/// Where a rule is about to be inserted.
pub struct InsertRuleContext<'a> {
    /// The rule list we're about to insert into.
    pub rule_list: &'a [CssRule],
    /// The index we're about to get inserted at.
    pub index: usize,
    /// The containing rule types of our ancestors.
    pub containing_rule_types: CssRuleTypes,
    /// Rule type determining if and how we parse relative selector syntax.
    pub parse_relative_rule_type: Option<CssRuleType>,
}

impl<'a> InsertRuleContext<'a> {
    /// The types of the rules of the list, and the index.
    pub open spec fn position(&self) -> (Seq<CssRuleType>, int) {
        (rule_types_of(self.rule_list@), self.index as int)
    }

    /// Returns the max rule state allowable for insertion at a given index in
    /// the rule list.
    pub fn max_rule_state_at_index(&self, index: usize) -> (state: State)
        ensures
            state == max_rule_state_at(rule_types_of(self.rule_list@), index as int),
    {
        if index >= self.rule_list.len() {
            return State::Body;
        }
        let ghost types = rule_types_of(self.rule_list@);
        match self.rule_list[index] {
            CssRule::Import(..) => State::Imports,
            CssRule::Namespace(..) => State::Namespaces,
            CssRule::LayerStatement(..) => {
                // If there are @import / @namespace after this layer, then
                // we're in the early-layers phase, otherwise we're in the body
                // and everything is fair game.
                let mut next: usize = index + 1;
                while next < self.rule_list.len()
                    invariant
                        index < next <= self.rule_list.len(),
                        types == rule_types_of(self.rule_list@),
                        types[index as int] == CssRuleType::LayerStatement,
                        first_after_layers(types, index + 1) == first_after_layers(types, next as int),
                    decreases self.rule_list.len() - next,
                {
                    match self.rule_list[next] {
                        CssRule::LayerStatement(..) => {},
                        CssRule::Import(..) | CssRule::Namespace(..) => {
                            return State::EarlyLayers;
                        },
                        _ => {
                            return State::Body;
                        },
                    }
                    next += 1;
                }
                State::Body
            },
            _ => State::Body,
        }
    }

    /// Whether the list holds, at the index or after it, a rule that is no
    /// `@namespace` rule.
    pub fn has_other_than_namespace(&self) -> (found: bool)
        ensures
            found == exists|i: int|
                0 <= self.index <= i < rule_types_of(self.rule_list@).len() && #[trigger] rule_types_of(
                    self.rule_list@,
                )[i] != CssRuleType::Namespace,
    {
        let ghost types = rule_types_of(self.rule_list@);
        let mut i: usize = self.index;
        while i < self.rule_list.len()
            invariant
                self.index <= i,
                types == rule_types_of(self.rule_list@),
                forall|j: int| self.index <= j < i ==> #[trigger] types[j] == CssRuleType::Namespace,
            decreases self.rule_list.len() - i,
        {
            match self.rule_list[i] {
                CssRule::Namespace(..) => {},
                _ => {
                    assert(types[i as int] != CssRuleType::Namespace);
                    return true;
                },
            }
            i += 1;
        }
        false
    }
}

/// The parser for one rule at the top of a rule list.
pub struct TopLevelRuleParser<'a> {
    /// The context of the parse.
    pub context: ParserContext<'a>,
    /// The lock domain that the cells of the parsed rules are to belong to.
    pub shared_lock: &'a SharedRwLock,
    /// The current state of the parser.
    pub state: State,
    /// Whether we have tried to parse was invalid due to being in the wrong
    /// place. Reset to none when a rule is parsed.
    pub dom_error: Option<RulesMutateError>,
    /// The info we need to insert a rule in a list.
    pub insert_rule_context: Option<InsertRuleContext<'a>>,
    /// Whether `@import` rules will be allowed.
    pub allow_import_rules: AllowImportRules,
}

impl<'a> TopLevelRuleParser<'a> {
    /// The position that a rule is parsed for, if it is parsed for one.
    pub open spec fn position(&self) -> Option<(Seq<CssRuleType>, int)> {
        match self.insert_rule_context {
            Some(context) => Some(context.position()),
            None => None,
        }
    }

    /// The types of the rules that enclose the position.
    pub open spec fn containing(&self) -> CssRuleTypes {
        self.context.nesting_context.rule_types
    }

    /// Returns whether a bare declaration list can be parsed here.
    pub fn can_parse_declarations(&self) -> (possible: bool)
        ensures
            possible == spec_can_parse_declarations(self.containing()),
    {
        // We also have to check for page rules here because we currently don't
        // have a bespoke parser for page rules, and parse them as though they
        // are style rules.
        self.context.in_style_rule() || self.context.in_page_rule()
    }

    /// Checks whether we can parse a rule that would transition us to
    /// `new_state`. Where we cannot, the reason is noted in `dom_error`.
    ///
    /// This is usually a simple branch, but we may need more bookkeeping if
    /// doing `insertRule` from CSSOM.
    pub fn check_state(&mut self, new_state: State) -> (allowed: bool)
        ensures
            allowed == (state_refusal(new_state, old(self).state, old(self).position()) is None),
            final(self).dom_error == if allowed {
                old(self).dom_error
            } else {
                state_refusal(new_state, old(self).state, old(self).position())
            },
            final(self).context == old(self).context,
            final(self).shared_lock == old(self).shared_lock,
            final(self).state == old(self).state,
            final(self).insert_rule_context == old(self).insert_rule_context,
            final(self).allow_import_rules == old(self).allow_import_rules,
    {
        if self.state.rank() > new_state.rank() {
            self.dom_error = Some(RulesMutateError::HierarchyRequest);
            return false;
        }
        let ctx = match &self.insert_rule_context {
            Some(ctx) => ctx,
            None => {
                return true;
            },
        };
        let max_rule_state = ctx.max_rule_state_at_index(ctx.index);
        if new_state.rank() > max_rule_state.rank() {
            self.dom_error = Some(RulesMutateError::HierarchyRequest);
            return false;
        }
        // If there's anything that isn't a namespace rule (or import rule, but
        // we checked that already at the beginning), reject with a
        // StateError.

        if new_state == State::Namespaces && ctx.has_other_than_namespace() {
            self.dom_error = Some(RulesMutateError::InvalidState);
            return false;
        }
        true
    }

    /// The state that a rule of the given type puts the parser in.
    pub fn state_of_rule(&self, rule_type: CssRuleType) -> (state: State)
        ensures
            state == state_of_rule(rule_type, self.state),
    {
        match rule_type {
            CssRuleType::Import => State::Imports,
            CssRuleType::Namespace => State::Namespaces,
            CssRuleType::LayerStatement => {
                if self.state.rank() <= State::EarlyLayers.rank() {
                    State::EarlyLayers
                } else {
                    State::Body
                }
            },
            _ => State::Body,
        }
    }

    /// Parses the text as one rule, into cells of the lock of the parser.
    ///
    /// Where the rule may not stand at the position of the parser, the
    /// reason is noted in `dom_error` and nothing is parsed. Where the text is
    /// no rule, no reason is noted. A rule that was parsed moves the parser
    /// on to the state of that rule.
    pub fn parse_one_rule(&mut self, input: &Input) -> (result: Option<CssRule>)
        requires
            old(self).dom_error is None,
        ensures
            match rule_outcome(
                input@,
                old(self).state,
                old(self).position(),
                old(self).containing(),
                old(self).allow_import_rules == AllowImportRules::Yes,
            ) {
                Ok(view) => result matches Some(rule) && rule@ == view && rule.guarded_by(
                    old(self).shared_lock.domain(),
                ) && final(self).dom_error is None && final(self).state == state_of_rule(
                    view.rule_type,
                    old(self).state,
                ),
                Err(error) => result is None && final(self).dom_error == error && final(self).state
                    == old(self).state,
            },
            final(self).context == old(self).context,
            final(self).shared_lock == old(self).shared_lock,
            final(self).insert_rule_context == old(self).insert_rule_context,
            final(self).allow_import_rules == old(self).allow_import_rules,
    {
        let rule_type = match rule_head_type(input, 0) {
            Some(rule_type) => rule_type,
            None => {
                return None;
            },
        };
        let new_state = self.state_of_rule(rule_type);
        if !self.check_state(new_state) {
            return None;
        }
        if !permitted_in(self.context.nesting_context.rule_types, rule_type) {
            self.dom_error = Some(RulesMutateError::HierarchyRequest);
            return None;
        }
        if rule_type == CssRuleType::Import && self.allow_import_rules == AllowImportRules::No {
            return None;
        }
        match parse_one_rule(input, self.context.nesting_context.rule_types, self.shared_lock) {
            Some(rule) => {
                proof {
                    lemma_parsed_rule_has_head_type(input@, 0, self.containing());
                }
                self.state = new_state;
                Some(rule)
            },
            None => None,
        }
    }
}

/// A rule that the grammar reads has the type that its head shows.
pub proof fn lemma_parsed_rule_has_head_type(s: Seq<char>, from: int, containing: CssRuleTypes)
    ensures
        grammar::parse_rule(s, from, containing) matches Some((rule, end)) ==> grammar::rule_head_type(
            s,
            from,
        ) == Some(rule.rule_type),
{
}

/// A rule is a rule wherever it stands.
///
/// Whether the text at `from` is read as a rule, where the rule ends, and
/// of which type it is do not depend on the rules around it. Only which of
/// its nested rules are kept does.
pub proof fn lemma_rule_anywhere(s: Seq<char>, from: int, here: CssRuleTypes, there: CssRuleTypes)
    requires
        0 <= from <= s.len(),
    ensures
        match (grammar::parse_rule(s, from, here), grammar::parse_rule(s, from, there)) {
            (Some((rule, end)), Some((other, other_end))) => end == other_end && rule.rule_type
                == other.rule_type,
            (None, None) => true,
            _ => false,
        },
    decreases s.len() - from, 0nat,
{
    if let Some(rule_type) = grammar::rule_head_type(s, from) {
        let start = grammar::skip(s, from, CharClass::Whitespace);
        let prelude_start = if rule_type == CssRuleType::Style {
            start
        } else {
            grammar::skip(
                s,
                grammar::skip(s, start + 1, CharClass::Name),
                CharClass::Whitespace,
            )
        };
        let stop = grammar::skip(s, prelude_start, CharClass::Text);
        if from <= stop < s.len() {
            match spec_body_kind(rule_type) {
                BodyKind::Rules => {
                    lemma_rule_list_anywhere(
                        s,
                        stop + 1,
                        here.spec_with(rule_type),
                        there.spec_with(rule_type),
                    );
                },
                BodyKind::DeclarationsAndRules => {
                    if let Some((block, next)) = grammar::parse_declarations(s, stop + 1) {
                        if stop < next <= s.len() {
                            lemma_rule_list_anywhere(
                                s,
                                next,
                                here.spec_with(rule_type),
                                there.spec_with(rule_type),
                            );
                        }
                    }
                },
                _ => {},
            }
        }
    }
}

/// The same, of the rules of a list: whether they are read and where they
/// stop do not depend on the rules around them.
pub proof fn lemma_rule_list_anywhere(s: Seq<char>, from: int, here: CssRuleTypes, there: CssRuleTypes)
    requires
        0 <= from <= s.len(),
    ensures
        match (grammar::parse_rule_list(s, from, here), grammar::parse_rule_list(s, from, there)) {
            (Some((rules, end)), Some((others, other_end))) => end == other_end,
            (None, None) => true,
            _ => false,
        },
    decreases s.len() - from, 1nat,
{
    lemma_skip_bounds(s, from, CharClass::Whitespace);
    let start = grammar::skip(s, from, CharClass::Whitespace);
    if start < s.len() && s[start] != '}' {
        lemma_rule_anywhere(s, start, here, there);
        if let Some((rule, next)) = grammar::parse_rule(s, start, here) {
            if start < next <= s.len() {
                lemma_rule_list_anywhere(s, next, here, there);
            }
        }
    }
}

/// Text that starts a rule holds no list of declarations.
pub proof fn lemma_rule_text_is_no_declaration_list(s: Seq<char>)
    requires
        grammar::rule_head_type(s, 0) is Some,
    ensures
        grammar::parse_declaration_list(s).len() == 0,
{
    let start = grammar::skip(s, 0, CharClass::Whitespace);
    grammar::lemma_skip_bounds(s, 0, CharClass::Whitespace);
    grammar::lemma_skip_bounds(s, start, CharClass::Text);
}

/// Insertion keeps the production of the grammar.
///
/// Let a text be one rule by itself, with no rule around it. Wherever that
/// text is inserted with success, whatever the rules of the list and the
/// rules around it, the rule that comes back has the type of the rule that the
/// text is by itself. In particular such a text is never taken for bare
/// declarations.
pub proof fn lemma_insert_keeps_production(
    s: Seq<char>,
    types: Seq<CssRuleType>,
    index: int,
    containing: CssRuleTypes,
    allow_import: bool,
)
    requires
        grammar::parse_one_rule(s, CssRuleTypes::spec_from_bits(0)) is Some,
        insert_outcome(s, types, index, containing, allow_import) is Ok,
    ensures
        insert_outcome(s, types, index, containing, allow_import)->Ok_0.rule_type
            == grammar::parse_one_rule(s, CssRuleTypes::spec_from_bits(0))->Some_0.rule_type,
        insert_outcome(s, types, index, containing, allow_import)->Ok_0.rule_type
            == grammar::rule_head_type(s, 0)->Some_0,
{
    lemma_parsed_rule_has_head_type(s, 0, CssRuleTypes::spec_from_bits(0));
    lemma_parsed_rule_has_head_type(s, 0, containing);
    lemma_rule_text_is_no_declaration_list(s);
}

/// A rule by itself is a rule where it is inserted.
///
/// Let a text be one rule by itself, with no rule around it. At every
/// position within a list where a rule of its type is not refused (and, for
/// an `@import` rule, where imports are allowed), inserting the text
/// succeeds and gives a rule of that type. It never gives an error, and
/// never the nested-declarations rule of bare declarations.
pub proof fn lemma_insert_of_a_rule(
    s: Seq<char>,
    types: Seq<CssRuleType>,
    index: int,
    containing: CssRuleTypes,
    allow_import: bool,
)
    requires
        grammar::parse_one_rule(s, CssRuleTypes::spec_from_bits(0)) is Some,
        0 <= index <= types.len(),
        insert_refusal(
            grammar::parse_one_rule(s, CssRuleTypes::spec_from_bits(0))->Some_0.rule_type,
            initial_state(types, index, containing),
            Some((types, index)),
            containing,
        ) is None,
        grammar::parse_one_rule(s, CssRuleTypes::spec_from_bits(0))->Some_0.rule_type
            == CssRuleType::Import ==> allow_import,
    ensures
        insert_outcome(s, types, index, containing, allow_import) is Ok,
        insert_outcome(s, types, index, containing, allow_import)->Ok_0.rule_type
            == grammar::parse_one_rule(s, CssRuleTypes::spec_from_bits(0))->Some_0.rule_type,
{
    lemma_rule_anywhere(s, 0, CssRuleTypes::spec_from_bits(0), containing);
    lemma_parsed_rule_has_head_type(s, 0, CssRuleTypes::spec_from_bits(0));
    lemma_parsed_rule_has_head_type(s, 0, containing);
}

} // verus!
