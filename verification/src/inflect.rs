//! Naming transforms used when a generated type refers to another table:
//! PascalCase, snake_case, singularization and lower-casing. The transforms
//! themselves are outside work; each result is given a name here and the
//! contracts of the generator speak of those names.

use vstd::prelude::*;

verus! {

/// What `inflector::cases::pascalcase::to_pascal_case` returns for `s`.
pub uninterp spec fn pascal_of(s: Seq<char>) -> Seq<char>;

/// What `inflector::string::singularize::to_singular` returns for `s`.
pub uninterp spec fn singular_of(s: Seq<char>) -> Seq<char>;

/// What `inflector::cases::snakecase::to_snake_case` returns for `s`.
pub uninterp spec fn snake_of(s: Seq<char>) -> Seq<char>;

/// What `str::to_lowercase` returns for `s`.
pub uninterp spec fn lower_of(s: Seq<char>) -> Seq<char>;

/// Relies on `inflector::cases::pascalcase::to_pascal_case`: the result is a
/// function of the characters of `s` alone.
#[verifier::external_body]
pub(crate) fn pascal_case(s: &str) -> (r: String)
    ensures
        r@ == pascal_of(s@),
{
    inflector::cases::pascalcase::to_pascal_case(s)
}

/// Relies on `inflector::string::singularize::to_singular`: the result is a
/// function of the characters of `s` alone.
#[verifier::external_body]
pub(crate) fn singularize(s: &str) -> (r: String)
    ensures
        r@ == singular_of(s@),
{
    inflector::string::singularize::to_singular(s)
}

/// Relies on `inflector::cases::snakecase::to_snake_case`: the result is a
/// function of the characters of `s` alone.
#[verifier::external_body]
pub(crate) fn snake_case(s: &str) -> (r: String)
    ensures
        r@ == snake_of(s@),
{
    inflector::cases::snakecase::to_snake_case(s)
}

/// Relies on `str::to_lowercase`: the result is the locale-independent
/// Unicode lowercase mapping of `s`, a function of its characters alone.
#[verifier::external_body]
pub(crate) fn lowercase(s: &str) -> (r: String)
    ensures
        r@ == lower_of(s@),
{
    s.to_lowercase()
}

} // verus!
