//! What the rewrite emits: one or two copies of the declaration, each
//! behind the condition under which it is compiled.

use crate::declaration::{Declaration, DeclarationView};
use vstd::prelude::*;

verus! {

/// The condition under which an emitted declaration is compiled.
#[derive(Debug, PartialEq, Eq)]
pub enum Gate {
    /// No condition.
    Always,
    /// `#[cfg(feature = "...")]`
    Feature(String),
    /// `#[cfg(not(feature = "..."))]`
    NotFeature(String),
}

/// What a [`Gate`] stands for in contracts.
pub enum GateView {
    Always,
    Feature(Seq<char>),
    NotFeature(Seq<char>),
}

impl View for Gate {
    type V = GateView;

    open spec fn view(&self) -> GateView {
        match self {
            Gate::Always => GateView::Always,
            Gate::Feature(name) => GateView::Feature(name@),
            Gate::NotFeature(name) => GateView::NotFeature(name@),
        }
    }
}

impl GateView {
    /// Whether the condition holds in a build that enables exactly the
    /// features in `enabled`.
    pub open spec fn holds(self, enabled: Set<Seq<char>>) -> bool {
        match self {
            GateView::Always => true,
            GateView::Feature(name) => enabled.contains(name),
            GateView::NotFeature(name) => !enabled.contains(name),
        }
    }
}

/// The names in a list of features.
pub open spec fn feature_set(features: Seq<String>) -> Set<Seq<char>> {
    Set::new(
        |name: Seq<char>| exists|i: int| 0 <= i < features.len() && (#[trigger] features[i])@ == name,
    )
}

/// Whether `name` is one of `features`.
fn is_enabled(name: &String, features: &Vec<String>) -> (found: bool)
    ensures
        found == feature_set(features@).contains(name@),
{
    let mut i: usize = 0;
    while i < features.len()
        invariant
            i <= features.len(),
            forall|j: int| 0 <= j < i ==> (#[trigger] features@[j])@ != name@,
        decreases features.len() - i,
    {
        if features[i] == *name {
            return true;
        }
        i += 1;
    }
    false
}

impl Gate {
    /// Whether the condition holds in a build that enables exactly the
    /// features in `enabled`.
    pub fn is_met(&self, enabled: &Vec<String>) -> (met: bool)
        ensures
            met == self@.holds(feature_set(enabled@)),
    {
        match self {
            Gate::Always => true,
            Gate::Feature(name) => is_enabled(name, enabled),
            Gate::NotFeature(name) => !is_enabled(name, enabled),
        }
    }
}

/// One emitted copy of the declaration.
#[derive(Debug, PartialEq, Eq)]
pub struct Variant {
    /// When this copy is compiled.
    pub gate: Gate,
    /// Whether the copy carries `#[allow(dead_code)]`.
    pub allow_dead_code: bool,
    pub item: Declaration,
}

/// What a [`Variant`] stands for in contracts.
pub struct VariantView {
    pub gate: GateView,
    pub allow_dead_code: bool,
    pub item: DeclarationView,
}

impl View for Variant {
    type V = VariantView;

    open spec fn view(&self) -> VariantView {
        VariantView { gate: self.gate@, allow_dead_code: self.allow_dead_code, item: self.item@ }
    }
}

/// Everything emitted for one annotated declaration, in the order in which
/// it is written out.
#[derive(Debug, PartialEq, Eq)]
pub struct Expansion {
    pub variants: Vec<Variant>,
}

/// What an [`Expansion`] stands for in contracts.
pub struct ExpansionView {
    pub variants: Seq<VariantView>,
}

impl View for Expansion {
    type V = ExpansionView;

    open spec fn view(&self) -> ExpansionView {
        ExpansionView { variants: self.variants@.map_values(|variant: Variant| variant@) }
    }
}

impl ExpansionView {
    /// The declaration passed through as it came.
    pub open spec fn unchanged(item: DeclarationView) -> ExpansionView {
        ExpansionView {
            variants: seq![VariantView { gate: GateView::Always, allow_dead_code: false, item }],
        }
    }

    /// Two copies keyed on one feature: `item` where it is enabled,
    /// `hidden_item` where it is not.
    pub open spec fn gated(
        feature_name: Seq<char>,
        item: DeclarationView,
        hidden_item: DeclarationView,
    ) -> ExpansionView {
        ExpansionView {
            variants: seq![
                VariantView { gate: GateView::Feature(feature_name), allow_dead_code: false, item },
                VariantView {
                    gate: GateView::NotFeature(feature_name),
                    allow_dead_code: true,
                    item: hidden_item,
                },
            ],
        }
    }

    /// How many of the emitted copies are compiled in a build that enables
    /// exactly the features in `enabled`.
    pub open spec fn compiled(self, enabled: Set<Seq<char>>) -> nat {
        self.variants.filter(|variant: VariantView| variant.gate.holds(enabled)).len()
    }
}

impl Expansion {
    /// Emits `item` alone, without a condition.
    pub fn unchanged(item: Declaration) -> (expansion: Expansion)
        ensures
            expansion@ == ExpansionView::unchanged(item@),
    {
        let mut variants: Vec<Variant> = Vec::new();
        variants.push(Variant { gate: Gate::Always, allow_dead_code: false, item });
        let expansion = Expansion { variants };
        assert(expansion@.variants =~= ExpansionView::unchanged(item@).variants);
        expansion
    }

    /// Emits `item` for builds with the feature and `hidden_item`, allowed
    /// to be unused, for builds without it.
    pub fn gated(feature_name: String, item: Declaration, hidden_item: Declaration) -> (expansion:
        Expansion)
        ensures
            expansion@ == ExpansionView::gated(feature_name@, item@, hidden_item@),
    {
        let mut variants: Vec<Variant> = Vec::new();
        variants.push(
            Variant { gate: Gate::Feature(feature_name.clone()), allow_dead_code: false, item },
        );
        variants.push(
            Variant { gate: Gate::NotFeature(feature_name), allow_dead_code: true, item: hidden_item },
        );
        let expansion = Expansion { variants };
        assert(expansion@.variants =~= ExpansionView::gated(
            feature_name@,
            item@,
            hidden_item@,
        ).variants);
        expansion
    }
}

} // verus!
