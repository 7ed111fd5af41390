//! Assembly of a page record from what was found in a line.

use vstd::prelude::*;
use crate::decode::{decode_links, links_decoded, or_empty, text_or_empty, DecodeFailure};
use crate::record::{
    link_views, text_view, ExtractedFields, FieldsView, LinkEntry, LinkView, PageRecord, PageView,
};

verus! {

/// The views of a list of links that may be absent.
pub open spec fn links_view(links: Option<Vec<LinkEntry>>) -> Option<Seq<LinkView>> {
    match links {
        Some(list) => Some(link_views(list@)),
        None => None,
    }
}

/// The record that the three parts make: each absent part is empty.
pub open spec fn assembled(
    record_id: Option<Seq<char>>,
    target_url: Option<Seq<char>>,
    links: Option<Seq<LinkView>>,
) -> PageView {
    PageView {
        id: or_empty(record_id),
        url: or_empty(target_url),
        links: match links {
            Some(list) => list,
            None => Seq::empty(),
        },
    }
}

/// Puts identifier, URL and links together, with the empty string or the
/// empty list for what is absent.  Nothing is validated.
pub fn assemble(
    record_id: Option<String>,
    target_url: Option<String>,
    links: Option<Vec<LinkEntry>>,
) -> (record: PageRecord)
    ensures
        record@ == assembled(text_view(record_id), text_view(target_url), links_view(links)),
{
    let list = match links {
        Some(list) => list,
        None => Vec::new(),
    };
    let record = PageRecord { id: text_or_empty(record_id), url: text_or_empty(target_url), links: list };
    assert(link_views(Seq::<LinkEntry>::empty()) =~= Seq::<LinkView>::empty());
    record
}

/// The links that a captured links text gives: those that it decodes to,
/// and none where there is no text or the text does not decode.
pub open spec fn links_found(raw_links: Option<Seq<char>>) -> Option<Seq<LinkView>> {
    match raw_links {
        Some(raw) => match links_decoded(raw) {
            Ok(links) => Some(links),
            Err(_) => None,
        },
        None => None,
    }
}

/// The failure that a captured links text gives: the message of the failure
/// where there is a text and it does not decode, and none otherwise.
pub open spec fn failure_found(raw_links: Option<Seq<char>>) -> Option<Seq<char>> {
    match raw_links {
        Some(raw) => match links_decoded(raw) {
            Ok(_) => None,
            Err(message) => Some(message),
        },
        None => None,
    }
}

/// The page record that the fields of a line make.
pub open spec fn page_of(fields: FieldsView) -> PageView {
    assembled(fields.record_id, fields.target_url, links_found(fields.raw_links))
}

/// The message of a failure that may be absent.
pub open spec fn failure_view(failure: Option<DecodeFailure>) -> Option<Seq<char>> {
    match failure {
        Some(f) => Some(f.message@),
        None => None,
    }
}

/// Decodes the links text, if there is one, and assembles the record.  A
/// links text that does not decode gives a record without links, together with
/// the failure; the decoder is not asked where there is no links text.
pub fn build_page(fields: ExtractedFields) -> (built: (PageRecord, Option<DecodeFailure>))
    ensures
        built.0@ == page_of(fields@),
        failure_view(built.1) == failure_found(fields@.raw_links),
{
    let ExtractedFields { record_id, target_url, raw_links } = fields;
    match raw_links {
        Some(raw) => match decode_links(raw.as_str()) {
            Ok(links) => (assemble(record_id, target_url, Some(links)), None),
            Err(failure) => (assemble(record_id, target_url, None), Some(failure)),
        },
        None => (assemble(record_id, target_url, None), None),
    }
}

} // verus!
