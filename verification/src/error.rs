//! The two ways in which marking a declaration unstable can fail.

use vstd::prelude::*;

verus! {

/// Why an annotation was refused. Either stops the rewrite of the one
/// declaration it is attached to; nothing is emitted for it.
#[derive(Debug, Clone, Copy, PartialEq, Eq, Structural)]
pub enum StabilityError {
    /// `feature` or `issue` was bound to something that is not a string
    /// literal.
    MalformedArgument,
    /// The annotation is attached to a kind of item that cannot be gated.
    UnsupportedDeclaration,
}

impl StabilityError {
    /// The message shown to the author of the annotation.
    pub fn message(&self) -> (text: String)
        ensures
            text@ == match *self {
                StabilityError::MalformedArgument => "expected a string literal"@,
                StabilityError::UnsupportedDeclaration => "unsupported item type"@,
            },
    {
        match self {
            StabilityError::MalformedArgument => String::from_str("expected a string literal"),
            StabilityError::UnsupportedDeclaration => String::from_str("unsupported item type"),
        }
    }
}

} // verus!
