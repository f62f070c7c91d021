//! Case conventions for identifiers, as the `heck` crate computes them.
//!
//! `heck` splits a name into words at every character that is not alphanumeric
//! and at changes of letter case, and joins the words again in the convention
//! asked for. Where it puts the boundaries depends on Unicode's character
//! tables, so each conversion is known here by name only: a function
//! of the characters of its input.

use vstd::prelude::*;

verus! {

/// `heck`'s UpperCamelCase form of a name: every word capitalised, nothing between the words.
pub uninterp spec fn upper_camel_case(name: Seq<char>) -> Seq<char>;

/// `heck`'s lowerCamelCase form of a name: the first word in lower case, the others capitalised.
pub uninterp spec fn lower_camel_case(name: Seq<char>) -> Seq<char>;

/// `heck`'s snake_case form of a name: words in lower case, joined by `_`.
pub uninterp spec fn snake_case(name: Seq<char>) -> Seq<char>;

/// `heck`'s SHOUTY_SNAKE_CASE form of a name: words in upper case, joined by `_`.
pub uninterp spec fn shouty_snake_case(name: Seq<char>) -> Seq<char>;

/// Calls `heck::ToUpperCamelCase::to_upper_camel_case` for `str`. The contract
/// claims only that the result is determined by the characters of `name`.
#[verifier::external_body]
pub(crate) fn to_upper_camel_case(name: &str) -> (r: String)
    ensures
        r@ == upper_camel_case(name@),
{
    heck::ToUpperCamelCase::to_upper_camel_case(name)
}

/// Calls `heck::ToLowerCamelCase::to_lower_camel_case` for `str`. The contract
/// claims only that the result is determined by the characters of `name`.
#[verifier::external_body]
pub(crate) fn to_lower_camel_case(name: &str) -> (r: String)
    ensures
        r@ == lower_camel_case(name@),
{
    heck::ToLowerCamelCase::to_lower_camel_case(name)
}

/// Calls `heck::ToSnakeCase::to_snake_case` for `str`. The contract claims only
/// that the result is determined by the characters of `name`.
#[verifier::external_body]
pub(crate) fn to_snake_case(name: &str) -> (r: String)
    ensures
        r@ == snake_case(name@),
{
    heck::ToSnakeCase::to_snake_case(name)
}

/// Calls `heck::ToShoutySnakeCase::to_shouty_snake_case` for `str`. The contract
/// claims only that the result is determined by the characters of `name`.
#[verifier::external_body]
pub(crate) fn to_shouty_snake_case(name: &str) -> (r: String)
    ensures
        r@ == shouty_snake_case(name@),
{
    heck::ToShoutySnakeCase::to_shouty_snake_case(name)
}

} // verus!
