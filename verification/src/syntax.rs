//! What the library takes from the host language's tooling: the syntax of
//! identifiers, visibilities, types and annotations, and the change of an
//! identifier's case. None of this is proved here.
//!
//! The four questions of syntax are answered by `syn`, which lexes the text
//! with `proc_macro2`. That crate lexes with the compiler's lexer while a
//! macro is being expanded and with its own elsewhere, and a process can
//! switch between the two. Nothing is therefore stated of the answers: what
//! the library does with them is proved for every answer.

use convert_case::{Case, Casing};
use vstd::prelude::*;

verus! {

/// The snake-case form of a Pascal-case identifier.
pub uninterp spec fn snake_case(text: Seq<char>) -> Seq<char>;

/// Asks `syn::parse_str` at `syn::Ident` whether the text is exactly one
/// identifier that is no keyword. Nothing is claimed of the answer.
#[verifier::external_body]
pub(crate) fn parses_as_identifier(text: &str) -> (ok: bool) {
    syn::parse_str::<syn::Ident>(text).is_ok()
}

/// Asks `syn::parse_str` at `syn::Visibility` whether the whole text is a
/// visibility. Nothing is claimed of the answer.
#[verifier::external_body]
pub(crate) fn parses_as_visibility(text: &str) -> (ok: bool) {
    syn::parse_str::<syn::Visibility>(text).is_ok()
}

/// Asks `syn::parse_str` at `syn::Type` whether the whole text is one type.
/// Nothing is claimed of the answer.
#[verifier::external_body]
pub(crate) fn parses_as_type(text: &str) -> (ok: bool) {
    syn::parse_str::<syn::Type>(text).is_ok()
}

/// Asks `syn::Attribute::parse_outer`, run over the whole text by
/// `syn::parse::Parser::parse_str`, whether the text is a run of outer
/// annotations and nothing else. Nothing is claimed of the answer.
#[verifier::external_body]
pub(crate) fn parses_as_annotation_block(text: &str) -> (ok: bool) {
    syn::parse::Parser::parse_str(syn::Attribute::parse_outer, text).is_ok()
}

/// `convert_case::Casing::from_case` with `Case::Pascal`, then `to_case` with
/// `Case::Snake`: splits the text at the word boundaries of Pascal case and
/// joins the lower-cased words with `_`. The claim is that the outcome is a
/// function of the text.
#[verifier::external_body]
pub(crate) fn to_snake_case(text: &str) -> (snake: String)
    ensures
        snake@ == snake_case(text@),
{
    text.from_case(Case::Pascal).to_case(Case::Snake)
}

} // verus!
