//! The calls into `syn` that read one property from the arguments of the
//! attribute. Nothing is known of what they return: the stream they read
//! from is `syn`'s own.

use syn::meta::ParseNestedMeta;
use syn::parse::ParseBuffer;
use vstd::prelude::*;

verus! {

/// [`syn::meta::ParseNestedMeta`], carried through as it is.
#[verifier::external_type_specification]
#[verifier::external_body]
pub struct ExParseNestedMeta<'a>(ParseNestedMeta<'a>);

/// [`syn::parse::ParseBuffer`], carried through as it is.
#[verifier::external_type_specification]
#[verifier::external_body]
pub struct ExParseBuffer<'a>(ParseBuffer<'a>);

/// [`syn::Lit`], carried through as it is.
#[verifier::external_type_specification]
#[verifier::external_body]
pub struct ExLit(syn::Lit);

/// [`syn::Error`], carried through as it is.
#[verifier::external_type_specification]
#[verifier::external_body]
pub struct ExError(syn::Error);

/// Calls [`syn::Path::is_ident`] on the property's path: whether the
/// property is written as the single identifier `name`. Nothing is claimed
/// of the answer.
#[verifier::external_body]
pub(crate) fn is_ident(meta: &ParseNestedMeta<'_>, name: &str) -> bool {
    meta.path.is_ident(name)
}

/// Calls [`ParseNestedMeta::value`], which moves past the `=` that follows
/// the property's name and fails where there is none. Nothing is claimed of
/// the outcome.
#[verifier::external_body]
pub(crate) fn value<'a>(meta: &ParseNestedMeta<'a>) -> Result<&'a ParseBuffer<'a>, syn::Error> {
    meta.value()
}

/// Calls [`ParseBuffer::parse`] for a [`syn::Lit`], which reads one literal
/// and fails where the next token is none. Nothing is claimed of the
/// outcome.
#[verifier::external_body]
pub(crate) fn parse_lit(input: &ParseBuffer<'_>) -> Result<syn::Lit, syn::Error> {
    input.parse()
}

/// Calls [`syn::LitStr::value`] where `literal` is a string literal, and
/// gives nothing for any other literal. Nothing is claimed of the string.
#[verifier::external_body]
pub(crate) fn string_value(literal: syn::Lit) -> Option<String> {
    match literal {
        syn::Lit::Str(text) => Some(text.value()),
        _ => None,
    }
}

/// Calls [`syn::Error::new_spanned`], which makes an error with the given
/// message that points at the property's name. Nothing is claimed of the
/// error.
#[verifier::external_body]
pub(crate) fn error(meta: &ParseNestedMeta<'_>, message: &str) -> syn::Error {
    syn::Error::new_spanned(&meta.path, message)
}

} // verus!
