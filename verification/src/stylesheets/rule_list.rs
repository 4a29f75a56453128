//! A list of CSS rules.
use vstd::prelude::*;
use crate::shared_lock::{Locked, SharedRwLock, SharedRwLockReadGuard};
use crate::stylesheets::css_rule::CssRule;
use crate::stylesheets::rule_view::{rules_css, RuleView};
use crate::stylesheets::rule_parser::{insert_outcome, rule_types_of, InsertRuleContext};
use crate::stylesheets::stylesheet::{AllowImportRules, StylesheetContents};
use crate::stylesheets::{CssRuleType, CssRuleTypes, RulesMutateError};

verus! {

/// A list of CSS rules.
#[derive(Debug)]
pub struct CssRules(pub Vec<CssRule>);

/// The rules of a list, each by its view.
pub open spec fn rules_view(rules: Seq<CssRule>) -> Seq<RuleView>
    decreases rules,
{
    Seq::new(
        rules.len(),
        |i: int|
            if 0 <= i < rules.len() {
                rules[i]@
            } else {
                arbitrary()
            },
    )
}

/// Whether every cell of every rule of the list belongs to one of the given
/// domains.
pub open spec fn rules_within(rules: Seq<CssRule>, domains: Set<u64>) -> bool
    decreases rules,
{
    forall|i: int| 0 <= i < rules.len() ==> (#[trigger] rules[i]).cells_within(domains)
}

impl CssRules {
    pub open spec fn view(&self) -> Seq<RuleView> {
        rules_view(self.0@)
    }

    /// Whether every cell of every rule of the list belongs to one of the
    /// given domains.
    pub open spec fn cells_within(&self, domains: Set<u64>) -> bool {
        rules_within(self.0@, domains)
    }

    /// Whether every cell of every rule of the list belongs to the given
    /// domain.
    pub open spec fn guarded_by(&self, domain: u64) -> bool {
        self.cells_within(set![domain])
    }

    /// A list of the given rules.
    pub fn new(rules: Vec<CssRule>) -> (list: CssRules)
        ensures
            list.0 == rules,
    {
        CssRules(rules)
    }

    /// The number of rules in the list.
    pub fn len(&self) -> (len: usize)
        ensures
            len == self@.len(),
    {
        self.0.len()
    }

    /// Whether this rule list is empty.
    pub fn is_empty(&self) -> (empty: bool)
        ensures
            empty == (self@.len() == 0),
    {
        self.0.len() == 0
    }

    /// Whether the guard opens every cell of every rule of the list.
    pub fn is_guarded_by(&self, guard: &SharedRwLockReadGuard) -> (guarded: bool)
        ensures
            guarded == self.guarded_by(guard.domain()),
        decreases self,
    {
        let mut i: usize = 0;
        while i < self.0.len()
            invariant
                i <= self.0.len(),
                forall|j: int| 0 <= j < i ==> (#[trigger] self.0@[j]).guarded_by(guard.domain()),
            decreases self.0.len() - i,
        {
            if !self.0[i].is_guarded_by(guard) {
                return false;
            }
            i += 1;
        }
        true
    }

    /// Serializes this list to CSS text as a block of rules: a space, the
    /// opening brace, the rules and the closing brace.
    pub fn to_css_block(&self, guard: &SharedRwLockReadGuard, dest: &mut String)
        requires
            self.guarded_by(guard.domain()),
        ensures
            final(dest)@ == old(dest)@ + " {"@ + rules_css(self@) + "\n}"@,
        decreases self, 1nat,
    {
        dest.append(" {");
        self.to_css_block_without_opening(guard, dest);
        assert(dest@ =~= old(dest)@ + " {"@ + rules_css(self@) + "\n}"@);
    }

    /// As above, but without the opening curly bracket. That's needed for
    /// nesting.
    pub fn to_css_block_without_opening(&self, guard: &SharedRwLockReadGuard, dest: &mut String)
        requires
            self.guarded_by(guard.domain()),
        ensures
            final(dest)@ == old(dest)@ + rules_css(self@) + "\n}"@,
        decreases self, 0nat,
    {
        let mut i: usize = 0;
        while i < self.0.len()
            invariant
                i <= self.0.len(),
                self.guarded_by(guard.domain()),
                dest@ == old(dest)@ + rules_css(self@.take(i as int)),
            decreases self.0.len() - i,
        {
            let rule = &self.0[i];
            proof {
                let next = self@.take(i + 1);
                assert(next.drop_last() =~= self@.take(i as int));
                assert(next.last() == rule@);
            }
            if !rule.is_empty_nested_declarations(guard) {
                dest.append("\n  ");
                rule.to_css(guard, dest);
                assert(dest@ =~= old(dest)@ + rules_css(self@.take(i + 1)));
            }
            i += 1;
        }
        assert(self@.take(i as int) =~= self@);
        dest.append("\n}");
    }

    /// A copy of this list, rule by rule, whose cells all belong to `lock`.
    pub fn deep_clone_with_lock(&self, lock: &SharedRwLock, guard: &SharedRwLockReadGuard) -> (copy:
        CssRules)
        requires
            self.guarded_by(guard.domain()),
        ensures
            copy@ == self@,
            copy.guarded_by(lock.domain()),
        decreases self,
    {
        let mut rules: Vec<CssRule> = Vec::new();
        let mut i: usize = 0;
        while i < self.0.len()
            invariant
                i <= self.0.len(),
                self.guarded_by(guard.domain()),
                rules@.len() == i,
                forall|j: int| 0 <= j < i ==> (#[trigger] rules@[j])@ == self.0@[j]@,
                rules_within(rules@, set![lock.domain()]),
            decreases self.0.len() - i,
        {
            let rule = self.0[i].deep_clone_with_lock(lock, guard);
            rules.push(rule);
            i += 1;
        }
        let copy = CssRules(rules);
        assert(copy@ =~= self@);
        copy
    }

    /// Whether the list holds nothing but `@namespace` and `@import` rules.
    pub fn only_ns_or_import(&self) -> (only: bool)
        ensures
            only == forall|i: int|
                0 <= i < self@.len() ==> {
                    ||| (#[trigger] self@[i]).rule_type == CssRuleType::Namespace
                    ||| self@[i].rule_type == CssRuleType::Import
                },
    {
        let mut i: usize = 0;
        while i < self.0.len()
            invariant
                i <= self.0.len(),
                forall|j: int|
                    0 <= j < i ==> {
                        ||| (#[trigger] self@[j]).rule_type == CssRuleType::Namespace
                        ||| self@[j].rule_type == CssRuleType::Import
                    },
            decreases self.0.len() - i,
        {
            match self.0[i] {
                CssRule::Namespace(..) | CssRule::Import(..) => {},
                _ => {
                    assert(self@[i as int] == self.0[i as int]@);
                    return false;
                },
            }
            assert(self@[i as int] == self.0[i as int]@);
            i += 1;
        }
        true
    }

    /// <https://drafts.csswg.org/cssom/#remove-a-css-rule>
    ///
    /// Removes the rule at `index`. An index that is not the position of a
    /// rule is refused as `IndexSize`. A `@namespace` rule is removed only
    /// from a list of `@namespace` and `@import` rules: from any other list
    /// it is refused as `InvalidState`. A list that refuses is left as it is.
    pub fn remove_rule(&mut self, index: usize) -> (result: Result<(), RulesMutateError>)
        ensures
            index >= old(self)@.len() ==> result == Err::<(), RulesMutateError>(
                RulesMutateError::IndexSize,
            ),
            index < old(self)@.len() && old(self).removal_invalid(index as int) ==> result == Err::<
                (),
                RulesMutateError,
            >(RulesMutateError::InvalidState),
            index < old(self)@.len() && !old(self).removal_invalid(index as int) ==> result is Ok,
            result is Ok ==> final(self).0@ == old(self).0@.remove(index as int),
            result is Err ==> final(self).0@ == old(self).0@,
    {
        // Step 1, 2
        if index >= self.0.len() {
            return Err(RulesMutateError::IndexSize);
        }
        // Step 3, 4

        assert(self@[index as int] == self.0[index as int]@);
        if let CssRule::Namespace(..) = self.0[index] {
            if !self.only_ns_or_import() {
                return Err(RulesMutateError::InvalidState);
            }
        }
        // Step 5, 6

        self.0.remove(index);
        Ok(())
    }

    /// Whether the rule at `index` is one that this list does not let go: a
    /// `@namespace` rule, in a list that holds another rule than `@namespace`
    /// and `@import` rules.
    pub open spec fn removal_invalid(&self, index: int) -> bool {
        &&& self@[index].rule_type == CssRuleType::Namespace
        &&& exists|i: int|
            0 <= i < self@.len() && (#[trigger] self@[i]).rule_type
                != CssRuleType::Namespace && self@[i].rule_type
                != CssRuleType::Import
    }
}

impl Locked<CssRules> {
    /// <https://drafts.csswg.org/cssom/#insert-a-css-rule>
    ///
    /// Parses `rule` and inserts it at `index` into this list, which `lock`
    /// guards. The list stands inside rules of the types in
    /// `containing_rule_types`.
    ///
    /// An index beyond the end of the list is refused as `IndexSize`. Text
    /// that `CssRule::parse` refuses for the position is refused with its
    /// error. A list that refuses is left as it is. Else the new rule stands
    /// at `index`, the rules from there on have moved up by one, and the new
    /// rule is returned.
    pub fn insert_rule(
        &mut self,
        lock: &SharedRwLock,
        rule: &str,
        parent_stylesheet_contents: &StylesheetContents,
        index: usize,
        containing_rule_types: CssRuleTypes,
        parse_relative_rule_type: Option<CssRuleType>,
        allow_import_rules: AllowImportRules,
    ) -> (result: Result<CssRule, RulesMutateError>)
        requires
            old(self).domain() == lock.domain(),
        ensures
            final(self).domain() == old(self).domain(),
            index > old(self).value().0@.len() ==> result == Err::<CssRule, RulesMutateError>(
                RulesMutateError::IndexSize,
            ) && final(self).value().0@ == old(self).value().0@,
            index <= old(self).value().0@.len() ==> match insert_outcome(
                rule@,
                rule_types_of(old(self).value().0@),
                index as int,
                containing_rule_types,
                allow_import_rules == AllowImportRules::Yes,
            ) {
                Ok(view) => result matches Ok(new_rule) && new_rule@ == view && new_rule.guarded_by(
                    lock.domain(),
                ) && final(self).value().0@ == old(self).value().0@.insert(index as int, new_rule),
                Err(error) => result == Err::<CssRule, RulesMutateError>(error)
                    && final(self).value().0@ == old(self).value().0@,
            },
    {
        let new_rule = {
            let read_guard = lock.read();
            let rules = self.read_with(&read_guard);

            // Step 1, 2
            if index > rules.0.len() {
                return Err(RulesMutateError::IndexSize);
            }
            let insert_rule_context = InsertRuleContext {
                rule_list: rules.0.as_slice(),
                index,
                containing_rule_types,
                parse_relative_rule_type,
            };

            // Steps 3, 4, 5, 6
            match CssRule::parse(
                rule,
                insert_rule_context,
                parent_stylesheet_contents,
                lock,
                allow_import_rules,
            ) {
                Ok(new_rule) => new_rule,
                Err(error) => {
                    return Err(error);
                },
            }
        };

        {
            let mut write_guard = lock.write();
            let rules = self.write_with(&mut write_guard);
            rules.0.insert(index, new_rule.clone());
        }

        Ok(new_rule)
    }
}

} // verus!
