//! The `unstable` attribute: its arguments, the feature that guards the
//! declaration, the documentation it adds and the two variants it emits.

use crate::declaration::{Declaration, DeclarationView};
use crate::error::StabilityError;
use crate::expansion::{Expansion, ExpansionView, GateView, VariantView};
use crate::item::{Attribute, AttributeView, Visibility};
use crate::syntax;
use syn::meta::ParseNestedMeta;
use vstd::prelude::*;

verus! {

/// What an argument of the attribute is bound to.
#[derive(Debug, PartialEq, Eq)]
pub enum ArgumentValue {
    /// A string literal, by its value.
    Str(String),
    /// Anything else: another literal, an expression, or nothing.
    Other,
}

/// What an [`ArgumentValue`] stands for in contracts.
pub enum ArgumentValueView {
    Str(Seq<char>),
    Other,
}

impl View for ArgumentValue {
    type V = ArgumentValueView;

    open spec fn view(&self) -> ArgumentValueView {
        match self {
            ArgumentValue::Str(text) => ArgumentValueView::Str(text@),
            ArgumentValue::Other => ArgumentValueView::Other,
        }
    }
}

/// One named argument of the attribute, as in `feature = "name"`.
#[derive(Debug, PartialEq, Eq)]
pub struct Argument {
    pub name: String,
    pub value: ArgumentValue,
}

/// What an [`Argument`] stands for in contracts.
pub struct ArgumentView {
    pub name: Seq<char>,
    pub value: ArgumentValueView,
}

impl View for Argument {
    type V = ArgumentView;

    open spec fn view(&self) -> ArgumentView {
        ArgumentView { name: self.name@, value: self.value@ }
    }
}

/// The arguments of one `unstable` attribute.
#[derive(Debug, PartialEq, Eq)]
pub struct UnstableAttribute {
    /// The name of the unstable feature; without one the declaration is
    /// guarded by the catch-all feature.
    pub feature: Option<String>,
    /// A link or reference to a tracking issue.
    pub issue: Option<String>,
}

/// What an [`UnstableAttribute`] stands for in contracts.
pub struct UnstableAttributeView {
    pub feature: Option<Seq<char>>,
    pub issue: Option<Seq<char>>,
}

/// The text of an optional string.
pub open spec fn text_of(text: Option<String>) -> Option<Seq<char>> {
    match text {
        Some(text) => Some(text@),
        None => None,
    }
}

impl View for UnstableAttribute {
    type V = UnstableAttributeView;

    open spec fn view(&self) -> UnstableAttributeView {
        UnstableAttributeView { feature: text_of(self.feature), issue: text_of(self.issue) }
    }
}

impl UnstableAttributeView {
    /// The arguments after one more was read. `feature` and `issue` take
    /// a string literal and nothing else; an argument of any other name
    /// changes nothing.
    pub open spec fn accept(self, argument: ArgumentView) -> Result<
        UnstableAttributeView,
        StabilityError,
    > {
        if argument.name == "feature"@ {
            match argument.value {
                ArgumentValueView::Str(text) => Ok(
                    UnstableAttributeView { feature: Some(text), ..self },
                ),
                ArgumentValueView::Other => Err(StabilityError::MalformedArgument),
            }
        } else if argument.name == "issue"@ {
            match argument.value {
                ArgumentValueView::Str(text) => Ok(
                    UnstableAttributeView { issue: Some(text), ..self },
                ),
                ArgumentValueView::Other => Err(StabilityError::MalformedArgument),
            }
        } else {
            Ok(self)
        }
    }
}

/// The crate feature that guards a declaration: `unstable-` before the
/// feature's name, or the catch-all `unstable` where none was given.
pub open spec fn feature_name(feature: Option<Seq<char>>) -> Seq<char> {
    match feature {
        Some(name) => "unstable-"@ + name,
        None => "unstable"@,
    }
}

/// The section added to the documentation of an unstable declaration. It
/// names the crate feature that enables the declaration and, where a
/// tracking issue was given, ends with a line that quotes it.
pub open spec fn availability(feature_name: Seq<char>, issue: Option<Seq<char>>) -> Seq<char> {
    let notice =
        "\n# Availability\n\n**This API is marked as unstable** and is only available when the `"@
        + feature_name
        + "` crate feature is enabled. This comes with no stability guarantees, and could be changed or removed at any time."@;
    match issue {
        Some(issue) => notice + "\nThe tracking issue is: `"@ + issue + "`"@,
        None => notice,
    }
}

impl UnstableAttributeView {
    /// What is emitted for `item`. A declaration that is not public is
    /// passed through. A public one is documented as unstable and emitted
    /// twice: as it is behind the feature, and confined to its crate where
    /// the feature is off.
    pub open spec fn expand(self, item: DeclarationView) -> ExpansionView {
        if item.is_public() {
            let feature_name = feature_name(self.feature);
            let documented = item.push_attr(
                AttributeView::Doc(availability(feature_name, self.issue)),
            );
            ExpansionView::gated(
                feature_name,
                documented,
                documented.set_visibility(Visibility::crate_only()),
            )
        } else {
            ExpansionView::unchanged(item)
        }
    }
}

impl Default for UnstableAttribute {
    /// The attribute without arguments.
    fn default() -> (attribute: Self)
        ensures
            attribute@ == (UnstableAttributeView { feature: None, issue: None }),
    {
        UnstableAttribute { feature: None, issue: None }
    }
}

impl UnstableAttribute {
    /// Reads one argument. On an error the arguments read so far stay as
    /// they were.
    pub fn accept(&mut self, argument: Argument) -> (outcome: Result<(), StabilityError>)
        ensures
            match old(self)@.accept(argument@) {
                Ok(next) => outcome is Ok && final(self)@ == next,
                Err(error) => outcome == Err::<(), StabilityError>(error) && final(self)@ == old(
                    self,
                )@,
            },
    {
        let Argument { name, value } = argument;
        if name == String::from_str("feature") {
            match value {
                ArgumentValue::Str(text) => {
                    self.feature = Some(text);
                    Ok(())
                },
                ArgumentValue::Other => Err(StabilityError::MalformedArgument),
            }
        } else if name == String::from_str("issue") {
            match value {
                ArgumentValue::Str(text) => {
                    self.issue = Some(text);
                    Ok(())
                },
                ArgumentValue::Other => Err(StabilityError::MalformedArgument),
            }
        } else {
            Ok(())
        }
    }

    /// Reads one property of the attribute's arguments from `syn`'s parser,
    /// as the logic of [`syn::meta::parser`]. `feature` and `issue` are
    /// read with the literal that follows them and handed to
    /// [`accept`](Self::accept); any other property is left alone.
    ///
    /// What the parser holds is not known here. So the contract says what
    /// holds of every outcome: on success at most one of the two arguments
    /// has a new value, and on an error nothing has changed.
    pub fn parse(&mut self, meta: ParseNestedMeta<'_>) -> (outcome: Result<(), syn::Error>)
        ensures
            match outcome {
                Ok(_) => {
                    ||| final(self)@ == old(self)@
                    ||| final(self)@.feature is Some && final(self)@.issue == old(self)@.issue
                    ||| final(self)@.issue is Some && final(self)@.feature == old(self)@.feature
                },
                Err(_) => final(self)@ == old(self)@,
            },
    {
        let name = if syntax::is_ident(&meta, "feature") {
            "feature"
        } else if syntax::is_ident(&meta, "issue") {
            "issue"
        } else {
            return Ok(());
        };
        proof {
            reveal_strlit("feature");
            reveal_strlit("issue");
        }
        let input = match syntax::value(&meta) {
            Ok(input) => input,
            Err(error) => {
                return Err(error);
            },
        };
        let literal = match syntax::parse_lit(input) {
            Ok(literal) => literal,
            Err(error) => {
                return Err(error);
            },
        };
        let value = match syntax::string_value(literal) {
            Some(text) => ArgumentValue::Str(text),
            None => ArgumentValue::Other,
        };
        match self.accept(Argument { name: String::from_str(name), value }) {
            Ok(_) => Ok(()),
            Err(error) => Err(syntax::error(&meta, error.message().as_str())),
        }
    }

    /// The name of the crate feature that has to be enabled for the
    /// declaration to be public.
    pub fn crate_feature_name(&self) -> (name: String)
        ensures
            name@ == feature_name(self@.feature),
    {
        match &self.feature {
            Some(name) => String::from_str("unstable-").concat(name.as_str()),
            None => String::from_str("unstable"),
        }
    }

    /// The documentation that tells readers how to enable the declaration.
    pub fn doc_addendum(&self) -> (text: String)
        ensures
            text@ == availability(feature_name(self@.feature), self@.issue),
    {
        let feature_name = self.crate_feature_name();
        let mut text = String::from_str(
            "\n# Availability\n\n**This API is marked as unstable** and is only available when the `",
        );
        text.append(feature_name.as_str());
        text.append(
            "` crate feature is enabled. This comes with no stability guarantees, and could be changed or removed at any time.",
        );
        if let Some(issue) = &self.issue {
            text.append("\nThe tracking issue is: `");
            text.append(issue.as_str());
            text.append("`");
        }
        text
    }

    /// Rewrites one declaration. Only public declarations are gated; for
    /// any other the attribute does nothing.
    pub fn expand(&self, item: Declaration) -> (expansion: Expansion)
        ensures
            expansion@ == self@.expand(item@),
    {
        let mut item = item;
        if item.is_public() {
            let feature_name = self.crate_feature_name();
            item.push_attr(Attribute::Doc(self.doc_addendum()));
            let mut hidden_item = item.clone();
            hidden_item.set_visibility(Visibility::restricted_to_crate());
            Expansion::gated(feature_name, item, hidden_item)
        } else {
            Expansion::unchanged(item)
        }
    }
}

/// Whether `needle` stands somewhere in `text`, character for character.
pub open spec fn occurs_in(needle: Seq<char>, text: Seq<char>) -> bool {
    exists|at: int|
        0 <= at && at + needle.len() <= text.len() && #[trigger] text.subrange(
            at,
            at + needle.len(),
        ) == needle
}

/// The two copies of a public declaration are keyed on one feature, whose
/// name is `unstable-` and the feature given, or `unstable` without one.
pub proof fn lemma_gates_name_the_feature(attribute: UnstableAttributeView, item: DeclarationView)
    requires
        item.is_public(),
    ensures
        attribute.expand(item).variants.len() == 2,
        attribute.expand(item).variants[0].gate == GateView::Feature(
            feature_name(attribute.feature),
        ),
        attribute.expand(item).variants[1].gate == GateView::NotFeature(
            feature_name(attribute.feature),
        ),
        attribute.feature matches Some(name) ==> feature_name(attribute.feature) == "unstable-"@
            + name,
        attribute.feature is None ==> feature_name(attribute.feature) == "unstable"@,
{
}

/// Whatever features a build enables, it compiles exactly one of the
/// copies emitted for a declaration. For a public declaration that is the
/// first copy where the feature is on and the second where it is off.
pub proof fn lemma_exactly_one_variant(
    attribute: UnstableAttributeView,
    item: DeclarationView,
    enabled: Set<Seq<char>>,
)
    ensures
        attribute.expand(item).compiled(enabled) == 1,
        item.is_public() ==> ({
            let expansion = attribute.expand(item);
            let on = enabled.contains(feature_name(attribute.feature));
            &&& expansion.variants.len() == 2
            &&& expansion.variants[0].gate.holds(enabled) == on
            &&& expansion.variants[1].gate.holds(enabled) == !on
        }),
{
    let expansion = attribute.expand(item);
    let compiled = |variant: VariantView| variant.gate.holds(enabled);
    reveal_with_fuel(Seq::filter, 3);
    if item.is_public() {
        let first = expansion.variants.drop_last();
        assert(first.len() == 1);
        assert(first.drop_last().len() == 0);
    } else {
        assert(expansion.variants.drop_last().len() == 0);
    }
}

/// A declaration that is not public comes out as it went in: one copy,
/// without a condition, without a new attribute.
pub proof fn lemma_private_passes_through(attribute: UnstableAttributeView, item: DeclarationView)
    requires
        !item.is_public(),
    ensures
        attribute.expand(item).variants.len() == 1,
        attribute.expand(item).variants[0] == (VariantView {
            gate: GateView::Always,
            allow_dead_code: false,
            item,
        }),
{
}

/// The added documentation quotes the feature's name and, where a
/// tracking issue was given, the issue. Without an issue it is the notice
/// and nothing more; with one, a single line on the issue follows the same
/// notice.
pub proof fn lemma_doc_quotes(feature_name: Seq<char>, issue: Option<Seq<char>>)
    ensures
        occurs_in(feature_name, availability(feature_name, issue)),
        issue is None ==> availability(feature_name, issue)
            == "\n# Availability\n\n**This API is marked as unstable** and is only available when the `"@
            + feature_name
            + "` crate feature is enabled. This comes with no stability guarantees, and could be changed or removed at any time."@,
        issue matches Some(reference) ==> occurs_in(reference, availability(feature_name, issue)),
        issue matches Some(reference) ==> availability(feature_name, issue) == availability(
            feature_name,
            None,
        ) + "\nThe tracking issue is: `"@ + reference + "`"@,
{
    let doc = availability(feature_name, issue);
    let head =
        "\n# Availability\n\n**This API is marked as unstable** and is only available when the `"@;
    let at = head.len() as int;
    assert(doc.subrange(at, at + feature_name.len()) =~= feature_name);
    if let Some(reference) = issue {
        let notice = availability(feature_name, None);
        let at = (notice + "\nThe tracking issue is: `"@).len() as int;
        assert(doc.subrange(at, at + reference.len()) =~= reference);
    }
}

/// Both copies of a public declaration carry the attributes it had,
/// followed by the one that documents its availability; the second copy
/// is confined to its crate and may go unused.
pub proof fn lemma_copies_of_a_public_declaration(
    attribute: UnstableAttributeView,
    item: DeclarationView,
)
    requires
        item.is_public(),
    ensures
        ({
            let expansion = attribute.expand(item);
            let doc = AttributeView::Doc(
                availability(feature_name(attribute.feature), attribute.issue),
            );
            &&& expansion.variants[0].item == item.push_attr(doc)
            &&& !expansion.variants[0].allow_dead_code
            &&& expansion.variants[1].item.content.attrs == item.content.attrs.push(doc)
            &&& expansion.variants[1].item.content.vis == Visibility::crate_only()
            &&& expansion.variants[1].item.shape == item.shape
            &&& expansion.variants[1].allow_dead_code
        }),
{
}

} // verus!
