//! Word-boundary-aware case conversion of display names, through the `heck`
//! crate.
//!
//! A module's display name becomes a lowercase, underscore-joined namespace
//! identifier; an action's display name becomes a capitalized, concatenated
//! declaration name. Both conversions depend on the input characters alone,
//! so each result is named by an uninterpreted spec function that the
//! contracts downstream speak of.

use vstd::prelude::*;

verus! {

/// The snake_case form of a name, as `heck` computes it.
pub uninterp spec fn snake_of(s: Seq<char>) -> Seq<char>;

/// The UpperCamelCase form of a name, as `heck` computes it.
pub uninterp spec fn camel_of(s: Seq<char>) -> Seq<char>;

/// Relies on `heck::ToSnakeCase::to_snake_case` for `str`: a pure
/// word-boundary-aware lowercase conversion whose result depends on the
/// input characters alone.
#[verifier::external_body]
pub fn to_snake(s: &String) -> (r: String)
    ensures
        r@ == snake_of(s@),
{
    heck::ToSnakeCase::to_snake_case(s.as_str())
}

/// Relies on `heck::ToUpperCamelCase::to_upper_camel_case` for `str`: a pure
/// word-boundary-aware capitalizing conversion whose result depends on the
/// input characters alone.
#[verifier::external_body]
pub fn to_camel(s: &String) -> (r: String)
    ensures
        r@ == camel_of(s@),
{
    heck::ToUpperCamelCase::to_upper_camel_case(s.as_str())
}

} // verus!
