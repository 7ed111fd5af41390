//! The values that the pipeline produces, and their mathematical views.

use vstd::prelude::*;

verus! {

/// One outbound link of a page.  An attribute that the source did not give
/// as a string is the empty string.
#[derive(Clone, Debug, PartialEq, Eq)]
pub struct LinkEntry {
    pub url: String,
    pub anchor_text: String,
    pub path: String,
}

/// A [`LinkEntry`] as three sequences of characters.
pub struct LinkView {
    pub url: Seq<char>,
    pub anchor_text: Seq<char>,
    pub path: Seq<char>,
}

impl View for LinkEntry {
    type V = LinkView;

    open spec fn view(&self) -> LinkView {
        LinkView { url: self.url@, anchor_text: self.anchor_text@, path: self.path@ }
    }
}

/// The views of a sequence of links, in the same order.
pub open spec fn link_views(links: Seq<LinkEntry>) -> Seq<LinkView> {
    Seq::new(links.len(), |i: int| links[i]@)
}

/// What is stored for one page: its identifier, its URL and its links in
/// document order.  Identifier and URL may be empty.
#[derive(Clone, Debug, PartialEq, Eq)]
pub struct PageRecord {
    pub id: String,
    pub url: String,
    pub links: Vec<LinkEntry>,
}

/// A [`PageRecord`] as sequences.
pub struct PageView {
    pub id: Seq<char>,
    pub url: Seq<char>,
    pub links: Seq<LinkView>,
}

impl View for PageRecord {
    type V = PageView;

    open spec fn view(&self) -> PageView {
        PageView { id: self.id@, url: self.url@, links: link_views(self.links@) }
    }
}

/// The three fields that are looked for in a line.  Each is found or not
/// found on its own.
#[derive(Clone, Debug, PartialEq, Eq)]
pub struct ExtractedFields {
    pub record_id: Option<String>,
    pub target_url: Option<String>,
    pub raw_links: Option<String>,
}

/// The view of a string that may be absent.
pub open spec fn text_view(text: Option<String>) -> Option<Seq<char>> {
    match text {
        Some(s) => Some(s@),
        None => None,
    }
}

/// [`ExtractedFields`] as optional sequences.
pub struct FieldsView {
    pub record_id: Option<Seq<char>>,
    pub target_url: Option<Seq<char>>,
    pub raw_links: Option<Seq<char>>,
}

impl View for ExtractedFields {
    type V = FieldsView;

    open spec fn view(&self) -> FieldsView {
        FieldsView {
            record_id: text_view(self.record_id),
            target_url: text_view(self.target_url),
            raw_links: text_view(self.raw_links),
        }
    }
}

} // verus!
