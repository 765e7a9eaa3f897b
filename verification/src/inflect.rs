//! Case conversion and English pluralization, supplied by the `inflector`
//! crate and named here so that contracts can speak of the results.

use vstd::prelude::*;

verus! {

/// The snake-case form of a character sequence, as `inflector` computes it.
pub uninterp spec fn snake_of(s: Seq<char>) -> Seq<char>;

/// The English plural of a character sequence, as `inflector` computes it.
pub uninterp spec fn plural_of(s: Seq<char>) -> Seq<char>;

/// Relies on `inflector::cases::snakecase::to_snake_case`: the result is a
/// function of the input characters alone.
#[verifier::external_body]
pub(crate) fn to_snake_case(s: &str) -> (r: String)
    ensures
        r@ == snake_of(s@),
{
    inflector::cases::snakecase::to_snake_case(s)
}

/// Relies on `inflector::string::pluralize::to_plural`: the result is a
/// function of the input characters alone.
#[verifier::external_body]
pub(crate) fn to_plural(s: &str) -> (r: String)
    ensures
        r@ == plural_of(s@),
{
    inflector::string::pluralize::to_plural(s)
}

} // verus!
