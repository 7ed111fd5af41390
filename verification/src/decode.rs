//! Decoding of the captured links text into link entries.

use vstd::prelude::*;
use vstd::string::StringExecFns;
use crate::fraction::{fractions_bounded, has_bounded_fractions};
use crate::document::{member_count, member_string, member_strings, parse_document, parsed_members};
use crate::record::{link_views, LinkEntry, LinkView};

verus! {

/// The key under which a link object holds the address it points to.
pub const URL_KEY: &'static str = "url";

/// The key under which a link object holds its anchor text.
pub const TEXT_KEY: &'static str = "text";

/// The key under which a link object holds its path in the document.
pub const PATH_KEY: &'static str = "path";

/// The message of the failure for a text that is not given to the parser,
/// because a number in it has a fraction of more digits than the parser can
/// count.
pub const TOO_MANY_DIGITS: &'static str = "Number with too many digits";

/// Why a links text gave no links: the JSON parser's own words, or
/// [`TOO_MANY_DIGITS`].
#[derive(Clone, Debug, PartialEq, Eq)]
pub struct DecodeFailure {
    pub message: String,
}

/// An absent text stands for the empty one.
pub open spec fn or_empty(text: Option<Seq<char>>) -> Seq<char> {
    match text {
        Some(s) => s,
        None => Seq::empty(),
    }
}

/// The string that `fields` holds under `key`, if it holds one.
pub open spec fn attribute(fields: Map<Seq<char>, Seq<char>>, key: Seq<char>) -> Option<
    Seq<char>,
> {
    if fields.contains_key(key) {
        Some(fields[key])
    } else {
        None
    }
}

/// The link that three optional attributes make.
pub open spec fn link_from(
    url: Option<Seq<char>>,
    text: Option<Seq<char>>,
    path: Option<Seq<char>>,
) -> LinkView {
    LinkView { url: or_empty(url), anchor_text: or_empty(text), path: or_empty(path) }
}

/// The link that one member of a links array stands for.
pub open spec fn link_of(fields: Map<Seq<char>, Seq<char>>) -> LinkView {
    link_from(
        attribute(fields, URL_KEY@),
        attribute(fields, TEXT_KEY@),
        attribute(fields, PATH_KEY@),
    )
}

/// The links that the members of a links array stand for, in their order.
pub open spec fn links_of(members: Seq<Map<Seq<char>, Seq<char>>>) -> Seq<LinkView> {
    Seq::new(members.len(), |i: int| link_of(members[i]))
}

/// The text itself, or the empty string where there is none.
pub fn text_or_empty(text: Option<String>) -> (s: String)
    ensures
        s@ == or_empty(crate::record::text_view(text)),
{
    match text {
        Some(s) => s,
        None => String::new(),
    }
}

/// Builds a link from the three attributes as they were found, putting the
/// empty string in place of each one that was not.
pub fn link_entry(url: Option<String>, text: Option<String>, path: Option<String>) -> (link:
    LinkEntry)
    ensures
        link@ == link_from(
            crate::record::text_view(url),
            crate::record::text_view(text),
            crate::record::text_view(path),
        ),
{
    LinkEntry {
        url: text_or_empty(url),
        anchor_text: text_or_empty(text),
        path: text_or_empty(path),
    }
}

/// Reads the links of a parsed document: one entry for each member, in the
/// order of the members.
pub fn links_of_document(doc: &json::JsonValue) -> (links: Vec<LinkEntry>)
    ensures
        link_views(links@) == links_of(member_strings(*doc)),
{
    let count: usize = member_count(doc);
    let mut links: Vec<LinkEntry> = Vec::new();
    let mut index: usize = 0;
    while index < count
        invariant
            index <= count,
            count == member_strings(*doc).len(),
            links@.len() == index,
            forall|i: int| 0 <= i < index ==> (#[trigger] links@[i])@ == link_of(member_strings(*doc)[i]),
        decreases count - index,
    {
        let url = member_string(doc, index, URL_KEY);
        let text = member_string(doc, index, TEXT_KEY);
        let path = member_string(doc, index, PATH_KEY);
        links.push(link_entry(url, text, path));
        index = index + 1;
    }
    assert(link_views(links@) =~= links_of(member_strings(*doc)));
    links
}

/// What [`decode_links`] returns for each outcome of the JSON parser.
pub open spec fn decode_outcome(
    parsed: Result<Seq<Map<Seq<char>, Seq<char>>>, Seq<char>>,
) -> Result<Seq<LinkView>, Seq<char>> {
    match parsed {
        Ok(members) => Ok(links_of(members)),
        Err(message) => Err(message),
    }
}

/// A decode result as plain values.
pub open spec fn decoded_view(decoded: Result<Vec<LinkEntry>, DecodeFailure>) -> Result<
    Seq<LinkView>,
    Seq<char>,
> {
    match decoded {
        Ok(links) => Ok(link_views(links@)),
        Err(failure) => Err(failure.message@),
    }
}

/// What a links text decodes to.  A text in which the fraction of a number
/// may take the parser's exponent out of its range is a failure with the
/// message [`TOO_MANY_DIGITS`]; every other text is what the JSON parser
/// makes of it.  Digits inside a string are never in the way.
pub open spec fn links_decoded(raw: Seq<char>) -> Result<Seq<LinkView>, Seq<char>> {
    if fractions_bounded(raw) {
        decode_outcome(parsed_members(raw))
    } else {
        Err(TOO_MANY_DIGITS@)
    }
}

/// Parses `raw` as JSON and reads its links.  Text that is not JSON gives a
/// failure with the parser's message, text with a fraction that the parser
/// cannot count gives one with [`TOO_MANY_DIGITS`], and nothing else fails.
pub fn decode_links(raw: &str) -> (decoded: Result<Vec<LinkEntry>, DecodeFailure>)
    ensures
        decoded_view(decoded) == links_decoded(raw@),
        fractions_bounded(raw@) ==> decoded_view(decoded) == decode_outcome(parsed_members(raw@)),
        !fractions_bounded(raw@) ==> (decoded matches Err(failure) && failure.message@
            == TOO_MANY_DIGITS@),
{
    if !has_bounded_fractions(raw) {
        return Err(DecodeFailure { message: String::from_str(TOO_MANY_DIGITS) });
    }
    match parse_document(raw) {
        Ok(doc) => Ok(links_of_document(&doc)),
        Err(message) => Err(DecodeFailure { message }),
    }
}

} // verus!
