//! What the rules of a style sheet are parsed with.
use vstd::prelude::*;
use std::sync::Arc;
use crate::shared_lock::{Locked, SharedRwLock, SharedRwLockReadGuard};
use crate::stylesheets::rule_list::CssRules;
use crate::stylesheets::url_extra_data::{SnapshotError, UrlExtraData};

verus! {

/// Where a style sheet comes from: <https://drafts.csswg.org/css-cascade/#cascading-origins>.
#[derive(Clone, Copy, Debug, PartialEq, Eq, Structural)]
pub enum Origin {
    /// A sheet of the user agent itself.
    UserAgent,
    /// A sheet of the user.
    User,
    /// A sheet of the author of the document.
    Author,
}

/// The mode in which the document is laid out: <https://quirks.spec.whatwg.org/>.
#[derive(Clone, Copy, Debug, PartialEq, Eq, Structural)]
pub enum QuirksMode {
    /// Quirks mode.
    Quirks,
    /// Limited quirks mode.
    LimitedQuirks,
    /// No quirks mode.
    NoQuirks,
}

/// Whether `@import` rules are taken when a rule is parsed.
#[derive(Clone, Copy, Debug, PartialEq, Eq, Structural)]
pub enum AllowImportRules {
    /// `@import` rules are parsed like any other rule.
    Yes,
    /// `@import` rules are a syntax error.
    No,
}

/// The namespaces that the `@namespace` rules of a style sheet declare.
#[derive(Debug)]
pub struct Namespaces {
    /// The URL of the default namespace, if one is declared.
    pub default: Option<String>,
    /// The prefixes, each with the URL of its namespace.
    pub prefixes: Vec<(String, String)>,
}

/// What a set of namespaces says: the default and the prefixes, as text.
pub struct NamespacesView {
    pub default: Option<Seq<char>>,
    pub prefixes: Seq<(Seq<char>, Seq<char>)>,
}

impl Namespaces {
    pub open spec fn view(&self) -> NamespacesView {
        NamespacesView {
            default: match self.default {
                Some(url) => Some(url@),
                None => None,
            },
            prefixes: Seq::new(self.prefixes@.len(), |i: int| (self.prefixes@[i].0@, self.prefixes@[i].1@)),
        }
    }

    /// No namespace.
    pub fn new() -> (namespaces: Namespaces)
        ensures
            namespaces@.default is None,
            namespaces@.prefixes.len() == 0,
    {
        Namespaces { default: None, prefixes: Vec::new() }
    }

    /// A copy of these namespaces.
    pub fn duplicate(&self) -> (copy: Namespaces)
        ensures
            copy@ == self@,
    {
        let default = match &self.default {
            Some(url) => Some(url.clone()),
            None => None,
        };
        let mut prefixes: Vec<(String, String)> = Vec::new();
        let mut i: usize = 0;
        while i < self.prefixes.len()
            invariant
                i <= self.prefixes.len(),
                prefixes@.len() == i,
                forall|j: int|
                    0 <= j < i ==> (#[trigger] prefixes@[j]).0@ == self.prefixes@[j].0@ && prefixes@[j].1@
                        == self.prefixes@[j].1@,
            decreases self.prefixes.len() - i,
        {
            let entry = &self.prefixes[i];
            prefixes.push((entry.0.clone(), entry.1.clone()));
            i += 1;
        }
        let copy = Namespaces { default, prefixes };
        assert(copy@.prefixes =~= self@.prefixes);
        copy
    }
}

/// The contents of a style sheet: its rules, and what they were parsed and
/// are resolved with.
#[derive(Debug)]
pub struct StylesheetContents {
    /// The rules of the sheet.
    pub rules: Arc<Locked<CssRules>>,
    /// The origin of the sheet.
    pub origin: Origin,
    /// The data to resolve the URLs of the sheet with.
    pub url_data: UrlExtraData,
    /// The namespaces that the sheet declares.
    pub namespaces: Namespaces,
    /// The quirks mode of the document of the sheet.
    pub quirks_mode: QuirksMode,
}

impl StylesheetContents {
    /// Whether the list of rules and every cell of every rule belong to the
    /// given domain.
    pub open spec fn guarded_by(&self, domain: u64) -> bool {
        self.rules.domain() == domain && self.rules.value().guarded_by(domain)
    }

    /// The form of these contents for memory that other processes read.
    ///
    /// The rules are copied, cell by cell, into the lock domain `shared_lock`
    /// that the readers of that memory use, and say what they said. The URL
    /// data is written as `UrlExtraData::to_shmem` has it, for the table
    /// `shared` of shared URL data: contents whose URL data that table does
    /// not hold cannot be written, and nothing is made of them.
    pub fn to_shmem(
        &self,
        guard: &SharedRwLockReadGuard,
        shared: &[usize],
        shared_lock: &SharedRwLock,
    ) -> (result: Result<StylesheetContents, SnapshotError>)
        requires
            self.guarded_by(guard.domain()),
            shared@.len() <= usize::MAX / 2,
        ensures
            match self.url_data.snapshot(shared@) {
                Ok(url_data) => result matches Ok(copy) && copy.url_data == url_data
                    && copy.rules.value()@ == self.rules.value()@ && copy.origin == self.origin
                    && copy.namespaces@ == self.namespaces@ && copy.quirks_mode == self.quirks_mode
                    && copy.guarded_by(shared_lock.domain()),
                Err(error) => result matches Err(refusal) && refusal == error,
            },
    {
        let url_data = match self.url_data.to_shmem(shared) {
            Ok(url_data) => url_data,
            Err(error) => {
                return Err(error);
            },
        };
        let rules = self.rules.read_with(guard).deep_clone_with_lock(shared_lock, guard);
        Ok(
            StylesheetContents {
                rules: Arc::new(shared_lock.wrap(rules)),
                origin: self.origin,
                url_data,
                namespaces: self.namespaces.duplicate(),
                quirks_mode: self.quirks_mode,
            },
        )
    }
}

} // verus!
