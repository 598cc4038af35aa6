//! Pattern mode: what the regex engine is trusted to do.
//!
//! The engine's results are named, not described: the contracts here say
//! which call gave a value, and the rest of the library says what is done
//! with it.

use vstd::prelude::*;
use regex::Regex;

verus! {

/// Whether `regex::Regex::new` accepts `find` as a regular expression.
pub uninterp spec fn pattern_compiles(find: Seq<char>) -> bool;

/// What `Regex::replace_all` of the expression `find` returns for `text` and
/// the replacement `replace`, in which `$` refers to capture groups.
pub uninterp spec fn pattern_replaced(find: Seq<char>, text: Seq<char>, replace: Seq<char>) -> Seq<char>;

/// How many matches `Regex::find_iter` of the expression `find` yields in
/// `text`: the successive matches that do not overlap.
pub uninterp spec fn pattern_count(find: Seq<char>, text: Seq<char>) -> nat;

/// Compiles `find` with `regex::Regex::new` and calls `Regex::replace_all`.
/// Trusted: nothing comes back exactly where the expression does not compile,
/// and otherwise the engine's text, owned.
#[verifier::external_body]
pub(crate) fn pattern_replace_all(find: &str, source: &str, replace: &str) -> (r: Option<String>)
    ensures
        r is Some <==> pattern_compiles(find@),
        r matches Some(text) ==> text@ == pattern_replaced(find@, source@, replace@),
{
    match Regex::new(find) {
        Ok(reg) => Some(reg.replace_all(source, replace).into_owned()),
        Err(_) => None,
    }
}

/// Compiles `find` with `regex::Regex::new` and counts what
/// `Regex::find_iter` yields. Trusted: nothing comes back exactly where the
/// expression does not compile, and otherwise the number of matches.
#[verifier::external_body]
pub(crate) fn pattern_match_count(find: &str, source: &str) -> (r: Option<usize>)
    ensures
        r is Some <==> pattern_compiles(find@),
        r matches Some(n) ==> n == pattern_count(find@, source@),
{
    match Regex::new(find) {
        Ok(reg) => Some(reg.find_iter(source).count()),
        Err(_) => None,
    }
}

} // verus!
