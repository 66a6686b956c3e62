//! Attributes for specifying the stability of the public API items of a
//! crate.
//!
//! An item marked unstable stays usable inside its crate, and is public
//! only where a crate feature is enabled: `unstable-` and the feature named
//! in the attribute, or the catch-all `unstable`. To that end the item is
//! emitted twice, once as it is behind the feature and once restricted to
//! the crate behind the feature's absence, and its documentation gains a
//! section that says how to enable it.
//!
//! The rewrite works on the parts of an item that it reads and writes: the
//! visibility, the attributes, and the visibility of a struct's fields.

use crate::declaration::Item;
use crate::error::StabilityError;
use crate::expansion::Expansion;
use crate::unstable::UnstableAttribute;
use vstd::prelude::*;

pub mod declaration;
pub mod error;
pub mod expansion;
pub mod item;
pub mod syntax;
pub mod unstable;

verus! {

/// Marks an item as unstable.
///
/// Type aliases, enums, structs, functions, modules, traits, constants,
/// statics and `use` declarations can be marked; the attribute on any
/// other item is an error. What is emitted for an item that can be marked
/// is decided by [`UnstableAttribute::expand`].
pub fn unstable(attributes: &UnstableAttribute, input: Item) -> (outcome: Result<
    Expansion,
    StabilityError,
>)
    ensures
        match input.declaration() {
            Some(declaration) => outcome matches Ok(expansion) && expansion@ == attributes@.expand(
                declaration,
            ),
            None => outcome == Err::<Expansion, StabilityError>(
                StabilityError::UnsupportedDeclaration,
            ),
        },
{
    match input.into_declaration() {
        Ok(declaration) => Ok(attributes.expand(declaration)),
        Err(error) => Err(error),
    }
}

} // verus!
