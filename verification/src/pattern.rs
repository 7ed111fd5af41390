//! The boundary to the `regex` crate.
//!
//! Nothing in this file is proved: the contracts below are believed.  They
//! say no more than that compiling and matching are functions of their
//! arguments, and give those functions names that the rest of the library
//! states its own contracts over.

use vstd::prelude::*;
use crate::record::text_view;

verus! {

/// A compiled pattern of the `regex` crate, opaque to the verifier.
#[verifier::external_type_specification]
#[verifier::external_body]
pub struct ExRegex(regex::Regex);

/// The error with which `regex` refuses a pattern, opaque to the verifier.
#[verifier::external_type_specification]
#[verifier::external_body]
pub struct ExRegexError(regex::Error);

/// Whether `regex::Regex::new` accepts `pattern`.
pub uninterp spec fn pattern_compiles(pattern: Seq<char>) -> bool;

/// The pattern text of `re`, where `re` matches with the default options, as
/// every value that `regex::Regex::new` makes does.  `None` for a value that
/// was built with other options: of such a value nothing is said here.
pub uninterp spec fn pattern_source(re: regex::Regex) -> Option<Seq<char>>;

/// What capture group `group` of `pattern` holds for the leftmost match in
/// `text`, under the default options: `None` when `pattern` matches nowhere
/// in `text`, has no such group, or matches without the group taking part.
pub uninterp spec fn captured(pattern: Seq<char>, group: usize, text: Seq<char>) -> Option<
    Seq<char>,
>;

/// Calls `regex::Regex::new`.  Claims that acceptance depends on the pattern
/// text alone, and that the compiled value is one of that text with the
/// default options.
#[verifier::external_body]
pub(crate) fn compile(pattern: &str) -> (r: Result<regex::Regex, regex::Error>)
    ensures
        r is Ok <==> pattern_compiles(pattern@),
        r matches Ok(re) ==> pattern_source(re) == Some(pattern@),
{
    regex::Regex::new(pattern)
}

/// Calls `regex::Regex::captures` and copies out what `Captures::get` gives
/// for `group`, if there is a match and the group took part in it.  Claims
/// that the outcome depends only on the pattern text, on `group` and on
/// `text`.
#[verifier::external_body]
pub(crate) fn capture(re: &regex::Regex, group: usize, text: &str) -> (r: Option<String>)
    requires
        pattern_source(*re) is Some,
    ensures
        text_view(r) == captured(pattern_source(*re).unwrap(), group, text@),
{
    re.captures(text).and_then(|c| c.get(group)).map(|m| m.as_str().to_string())
}

} // verus!
