//! Style sheets and their CSS rules.
use vstd::prelude::*;

pub mod css_rule;
pub mod grammar;
pub mod input;
pub mod keywords;
pub mod round_trip;
pub mod rule_list;
pub mod rule_parser;
pub mod rule_view;
pub mod rules;
pub mod stylesheet;
pub mod url_extra_data;

pub use self::css_rule::CssRule;
pub use self::rule_list::CssRules;
pub use self::stylesheet::{
    AllowImportRules, Namespaces, Origin, QuirksMode, StylesheetContents,
};
pub use self::url_extra_data::{is_chrome_scheme, SnapshotError, UrlExtraData};

verus! {

/// The CORS mode used for a CSS load.
#[derive(Clone, Copy, Debug, PartialEq, Eq, Structural)]
pub enum CorsMode {
    /// No CORS mode, so cross-origin loads can be done.
    NoCors,
    /// Anonymous CORS request.
    Anonymous,
}

/// The CSSOM type of a rule: <https://drafts.csswg.org/cssom-1/#dom-cssrule-type>.
#[allow(missing_docs)]
#[derive(Clone, Copy, Debug, PartialEq, Eq, Structural)]
pub enum CssRuleType {
    Style,
    Import,
    Media,
    FontFace,
    Page,
    Keyframes,
    Keyframe,
    Margin,
    Namespace,
    CounterStyle,
    Supports,
    Document,
    FontFeatureValues,
    LayerBlock,
    LayerStatement,
    Container,
    FontPaletteValues,
    Property,
    Scope,
    StartingStyle,
    PositionTry,
    NestedDeclarations,
}

impl CssRuleType {
    /// The stable number of this rule type. The numbers 2 and 15 belong to
    /// historical rule types and are not used.
    pub open spec fn spec_value(self) -> u32 {
        match self {
            CssRuleType::Style => 1,
            CssRuleType::Import => 3,
            CssRuleType::Media => 4,
            CssRuleType::FontFace => 5,
            CssRuleType::Page => 6,
            CssRuleType::Keyframes => 7,
            CssRuleType::Keyframe => 8,
            CssRuleType::Margin => 9,
            CssRuleType::Namespace => 10,
            CssRuleType::CounterStyle => 11,
            CssRuleType::Supports => 12,
            CssRuleType::Document => 13,
            CssRuleType::FontFeatureValues => 14,
            CssRuleType::LayerBlock => 16,
            CssRuleType::LayerStatement => 17,
            CssRuleType::Container => 18,
            CssRuleType::FontPaletteValues => 19,
            CssRuleType::Property => 20,
            CssRuleType::Scope => 21,
            CssRuleType::StartingStyle => 22,
            CssRuleType::PositionTry => 23,
            CssRuleType::NestedDeclarations => 24,
        }
    }

    /// The bit that stands for this rule type in a `CssRuleTypes`.
    pub open spec fn spec_bit(self) -> u32 {
        1u32 << self.spec_value()
    }

    /// Returns the stable number of this rule type.
    #[verifier::when_used_as_spec(spec_value)]
    pub fn value(self) -> (v: u32)
        ensures
            v == self.spec_value(),
            1 <= v <= 24,
    {
        match self {
            CssRuleType::Style => 1,
            CssRuleType::Import => 3,
            CssRuleType::Media => 4,
            CssRuleType::FontFace => 5,
            CssRuleType::Page => 6,
            CssRuleType::Keyframes => 7,
            CssRuleType::Keyframe => 8,
            CssRuleType::Margin => 9,
            CssRuleType::Namespace => 10,
            CssRuleType::CounterStyle => 11,
            CssRuleType::Supports => 12,
            CssRuleType::Document => 13,
            CssRuleType::FontFeatureValues => 14,
            CssRuleType::LayerBlock => 16,
            CssRuleType::LayerStatement => 17,
            CssRuleType::Container => 18,
            CssRuleType::FontPaletteValues => 19,
            CssRuleType::Property => 20,
            CssRuleType::Scope => 21,
            CssRuleType::StartingStyle => 22,
            CssRuleType::PositionTry => 23,
            CssRuleType::NestedDeclarations => 24,
        }
    }

    /// Returns the rule type with the given number, if there is one.
    pub fn from_value(value: u32) -> (ty: Option<CssRuleType>)
        ensures
            match ty {
                Some(t) => t.spec_value() == value,
                None => forall|t: CssRuleType| t.spec_value() != value,
            },
    {
        match value {
            1 => Some(CssRuleType::Style),
            3 => Some(CssRuleType::Import),
            4 => Some(CssRuleType::Media),
            5 => Some(CssRuleType::FontFace),
            6 => Some(CssRuleType::Page),
            7 => Some(CssRuleType::Keyframes),
            8 => Some(CssRuleType::Keyframe),
            9 => Some(CssRuleType::Margin),
            10 => Some(CssRuleType::Namespace),
            11 => Some(CssRuleType::CounterStyle),
            12 => Some(CssRuleType::Supports),
            13 => Some(CssRuleType::Document),
            14 => Some(CssRuleType::FontFeatureValues),
            16 => Some(CssRuleType::LayerBlock),
            17 => Some(CssRuleType::LayerStatement),
            18 => Some(CssRuleType::Container),
            19 => Some(CssRuleType::FontPaletteValues),
            20 => Some(CssRuleType::Property),
            21 => Some(CssRuleType::Scope),
            22 => Some(CssRuleType::StartingStyle),
            23 => Some(CssRuleType::PositionTry),
            24 => Some(CssRuleType::NestedDeclarations),
            _ => None,
        }
    }

    /// Returns a bit that identifies this rule type.
    #[verifier::when_used_as_spec(spec_bit)]
    pub fn bit(self) -> (b: u32)
        ensures
            b == self.spec_bit(),
            b != 0,
    {
        let shift: u32 = self.value();
        assert((1u32 << shift) != 0) by (bit_vector)
            requires
                shift < 32,
        ;
        1u32 << shift
    }
}

/// Two rule types have a bit in common only if they are the same rule type.
pub proof fn lemma_bits_distinct(a: CssRuleType, b: CssRuleType)
    ensures
        (a.spec_bit() & b.spec_bit() != 0) <==> a == b,
{
    let x: u32 = a.spec_value();
    let y: u32 = b.spec_value();
    assert(((1u32 << x) & (1u32 << y) != 0) <==> x == y) by (bit_vector)
        requires
            x < 32,
            y < 32,
    ;
}

/// Set of rule types, one bit for each.
#[derive(Clone, Copy, Debug, PartialEq, Eq, Structural)]
pub struct CssRuleTypes(pub(crate) u32);

impl Default for CssRuleTypes {
    fn default() -> (set: CssRuleTypes)
        ensures
            set.spec_bits() == 0,
    {
        CssRuleTypes(0)
    }
}

impl From<CssRuleType> for CssRuleTypes {
    fn from(ty: CssRuleType) -> (set: CssRuleTypes) {
        CssRuleTypes(ty.bit())
    }
}

impl vstd::std_specs::convert::FromSpecImpl<CssRuleType> for CssRuleTypes {
    open spec fn obeys_from_spec() -> bool {
        true
    }

    open spec fn from_spec(ty: CssRuleType) -> CssRuleTypes {
        CssRuleTypes::spec_from_bits(ty.spec_bit())
    }
}

impl CssRuleTypes {
    /// The bits of the set.
    pub open(crate) spec fn spec_bits(self) -> u32 {
        self.0
    }

    /// The set with exactly the given bits.
    pub open(crate) spec fn spec_from_bits(bits: u32) -> CssRuleTypes {
        CssRuleTypes(bits)
    }

    /// The set with one more rule type.
    pub open spec fn spec_with(self, ty: CssRuleType) -> CssRuleTypes {
        CssRuleTypes::spec_from_bits(self.spec_bits() | ty.spec_bit())
    }

    /// Whether the rule type is in the set.
    pub open spec fn has(self, ty: CssRuleType) -> bool {
        self.spec_bits() & ty.spec_bit() != 0
    }

    /// Rules where `!important` declarations are forbidden.
    pub fn important_forbidden() -> (set: CssRuleTypes)
        ensures
            set.spec_bits() == CssRuleType::PositionTry.spec_bit() | CssRuleType::Keyframe.spec_bit(),
            forall|ty: CssRuleType|
                set.has(ty) <==> (ty == CssRuleType::PositionTry || ty == CssRuleType::Keyframe),
    {
        let set = CssRuleTypes(CssRuleType::PositionTry.bit() | CssRuleType::Keyframe.bit());
        proof {
            assert forall|ty: CssRuleType|
                set.has(ty) <==> (ty == CssRuleType::PositionTry || ty == CssRuleType::Keyframe) by {
                lemma_bits_distinct(CssRuleType::PositionTry, ty);
                lemma_bits_distinct(CssRuleType::Keyframe, ty);
                lemma_or_and(
                    CssRuleType::PositionTry.spec_bit(),
                    CssRuleType::Keyframe.spec_bit(),
                    ty.spec_bit(),
                );
            }
        }
        set
    }

    /// Returns whether the rule is in the current set.
    pub fn contains(self, ty: CssRuleType) -> (found: bool)
        ensures
            found == self.has(ty),
    {
        self.0 & ty.bit() != 0
    }

    /// Returns all the rules specified in the set.
    #[verifier::when_used_as_spec(spec_bits)]
    pub fn bits(self) -> (bits: u32)
        ensures
            bits == self.spec_bits(),
    {
        self.0
    }

    /// Creates a raw CssRuleTypes bitfield.
    #[verifier::when_used_as_spec(spec_from_bits)]
    pub fn from_bits(bits: u32) -> (set: CssRuleTypes)
        ensures
            set == CssRuleTypes::spec_from_bits(bits),
            set.spec_bits() == bits,
    {
        CssRuleTypes(bits)
    }

    /// Returns whether the rule set is empty.
    pub fn is_empty(self) -> (empty: bool)
        ensures
            empty == (self.spec_bits() == 0),
            empty ==> forall|ty: CssRuleType| !self.has(ty),
    {
        proof {
            if self.0 == 0 {
                assert forall|ty: CssRuleType| !self.has(ty) by {
                    let b: u32 = ty.spec_bit();
                    assert(0u32 & b == 0) by (bit_vector);
                }
            }
        }
        self.0 == 0
    }

    /// Inserts a rule type into the set.
    pub fn insert(&mut self, ty: CssRuleType)
        ensures
            final(self).spec_bits() == old(self).spec_bits() | ty.spec_bit(),
            forall|t: CssRuleType| final(self).has(t) <==> (old(self).has(t) || t == ty),
    {
        let ghost before = self.0;
        self.0 = self.0 | ty.bit();
        proof {
            assert forall|t: CssRuleType| self.has(t) <==> (old(self).has(t) || t == ty) by {
                lemma_bits_distinct(ty, t);
                lemma_or_and(before, ty.spec_bit(), t.spec_bit());
            }
        }
    }

    /// The set with one more rule type.
    #[verifier::when_used_as_spec(spec_with)]
    pub fn with(self, ty: CssRuleType) -> (set: CssRuleTypes)
        ensures
            set == self.spec_with(ty),
    {
        CssRuleTypes(self.0 | ty.bit())
    }

    /// Returns whether any of the types intersect.
    pub fn intersects(self, other: CssRuleTypes) -> (common: bool)
        ensures
            common == (self.spec_bits() & other.spec_bits() != 0),
            (exists|ty: CssRuleType| self.has(ty) && other.has(ty)) ==> common,
    {
        proof {
            if exists|ty: CssRuleType| self.has(ty) && other.has(ty) {
                let ty = choose|ty: CssRuleType| self.has(ty) && other.has(ty);
                let a: u32 = self.0;
                let b: u32 = other.0;
                let s: u32 = ty.spec_value();
                assert((a & (1u32 << s) != 0 && b & (1u32 << s) != 0) ==> a & b != 0) by (bit_vector)
                    requires
                        s < 32,
                ;
            }
        }
        self.0 & other.0 != 0
    }
}

/// A bit of `a | b` is a bit of `a` or a bit of `b`.
pub proof fn lemma_or_and(a: u32, b: u32, c: u32)
    ensures
        ((a | b) & c != 0) <==> (a & c != 0 || b & c != 0),
{
    assert(((a | b) & c != 0) <==> (a & c != 0 || b & c != 0)) by (bit_vector);
}

/// Why a change to a rule list was refused.
#[allow(missing_docs)]
#[derive(Clone, Copy, Debug, PartialEq, Eq, Structural)]
pub enum RulesMutateError {
    Syntax,
    IndexSize,
    HierarchyRequest,
    InvalidState,
}

} // verus!
