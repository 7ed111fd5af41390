//! The boundary to the `json` crate.
//!
//! Nothing in this file is proved: the contracts below are believed.  A
//! parsed document is kept as the crate's own value; what the library reads
//! from it is named here as a sequence of maps, one map for each member of
//! the document.

use vstd::prelude::*;
use crate::fraction::fractions_bounded;

verus! {

/// A parsed JSON value of the `json` crate, opaque to the verifier.
#[verifier::external_type_specification]
#[verifier::external_body]
pub struct ExJsonValue(json::JsonValue);

/// What a document holds, as far as this library reads it: for each member
/// of the array, in order, the map from a key to its value for exactly those
/// keys of the member whose value is a string.  A member that is no object
/// gives the empty map, and a document that is no array has no members.
pub uninterp spec fn member_strings(doc: json::JsonValue) -> Seq<Map<Seq<char>, Seq<char>>>;

/// The outcome of `json::parse` on `text`: the members of the document, as
/// [`member_strings`] describes them, or the text of the parser's error.
/// It stands for a call that returns: nothing is said through it of a text
/// that the parser is not given.
pub uninterp spec fn parsed_members(text: Seq<char>) -> Result<
    Seq<Map<Seq<char>, Seq<char>>>,
    Seq<char>,
>;

/// A parse outcome as plain values: the members of the document, or the
/// error text.
pub open spec fn outcome_view(outcome: Result<json::JsonValue, String>) -> Result<
    Seq<Map<Seq<char>, Seq<char>>>,
    Seq<char>,
> {
    match outcome {
        Ok(doc) => Ok(member_strings(doc)),
        Err(message) => Err(message@),
    }
}

/// Calls `json::parse`, and turns an error into its `Display` text.  Claims
/// that the outcome depends on `text` alone.  The parser lowers a 16-bit
/// exponent while it reads a fraction and does not test for overflow, so a
/// text with a fraction that may take the exponent out of its range is left
/// out (see [`crate::fraction`]).
#[verifier::external_body]
pub(crate) fn parse_document(text: &str) -> (r: Result<json::JsonValue, String>)
    requires
        fractions_bounded(text@),
    ensures
        outcome_view(r) == parsed_members(text@),
{
    match json::parse(text) {
        Ok(doc) => Ok(doc),
        Err(error) => Err(error.to_string()),
    }
}

/// Calls `JsonValue::members` and takes the length of the iterator: the
/// number of elements of an array, and 0 for every other value.
#[verifier::external_body]
pub(crate) fn member_count(doc: &json::JsonValue) -> (n: usize)
    ensures
        n == member_strings(*doc).len(),
{
    doc.members().len()
}

/// Indexes `doc` by position and the member by `key`, then calls
/// `JsonValue::as_str`.  Both index operations give `Null` where there is
/// nothing to give, and `as_str` is `Some` for a string only: so the result
/// is the string under `key` in member `index`, if that member is an object
/// and holds a string there.
#[verifier::external_body]
pub(crate) fn member_string(doc: &json::JsonValue, index: usize, key: &str) -> (r: Option<String>)
    requires
        index < member_strings(*doc).len(),
    ensures
        r.is_some() == member_strings(*doc)[index as int].contains_key(key@),
        r matches Some(s) ==> member_strings(*doc)[index as int][key@] == s@,
{
    doc[index][key].as_str().map(|s| s.to_string())
}

} // verus!
