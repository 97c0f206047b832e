//! Name inflection, delegated to the inflector crate. The two results are
//! functions of the input characters alone, so each is given a name that the
//! rest of the library's contracts can speak of exactly.

use vstd::prelude::*;

verus! {

/// The lowercase, underscore-separated ("table") form of an identifier, as
/// inflector computes it.
pub uninterp spec fn table_case_of(s: Seq<char>) -> Seq<char>;

/// The plural form of a word under English pluralization rules, as inflector
/// computes it.
pub uninterp spec fn plural_of(s: Seq<char>) -> Seq<char>;

/// Relies on inflector's `cases::tablecase::to_table_case`: rewrites an
/// identifier into its lowercase, underscore-separated form; the result
/// depends on the input characters alone.
#[verifier::external_body]
pub(crate) fn table_case(s: &str) -> (r: String)
    ensures
        r@ == table_case_of(s@),
{
    inflector::cases::tablecase::to_table_case(s)
}

/// Relies on inflector's `string::pluralize::to_plural`: pluralizes the last
/// word of the input under English pluralization rules; the result depends on
/// the input characters alone.
#[verifier::external_body]
pub(crate) fn pluralize(s: &str) -> (r: String)
    ensures
        r@ == plural_of(s@),
{
    inflector::string::pluralize::to_plural(s)
}

} // verus!
