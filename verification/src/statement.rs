//! Rendering of a page record as an insert statement for a store that
//! speaks CQL: one row of the table `graph.sites` for each page, with the
//! links as a list of `{url, text, path}` values.
//!
//! The texts are put in as they are: nothing is quoted or escaped.

use vstd::prelude::*;
use vstd::string::StringExecFns;
use crate::record::{link_views, LinkEntry, LinkView, PageRecord, PageView};

verus! {

/// One link as a CQL value.
pub open spec fn rendered_link(link: LinkView) -> Seq<char> {
    "{url:'"@ + link.url + "',text:'"@ + link.anchor_text + "',path:'"@ + link.path + "'}"@
}

/// The links as CQL values with a comma between each two of them.
pub open spec fn rendered_links(links: Seq<LinkView>) -> Seq<char>
    decreases links.len(),
{
    if links.len() == 0 {
        Seq::empty()
    } else if links.len() == 1 {
        rendered_link(links[0])
    } else {
        rendered_links(links.drop_last()) + ","@ + rendered_link(links.last())
    }
}

/// The links as a CQL list.
pub open spec fn rendered_list(links: Seq<LinkView>) -> Seq<char> {
    "["@ + rendered_links(links) + "]"@
}

/// The statement that inserts `page`.
pub open spec fn rendered_insert(page: PageView) -> Seq<char> {
    "INSERT INTO graph.sites (uuid, url, links) VALUES ("@ + page.id + ", '"@ + page.url
        + "', "@ + rendered_list(page.links) + ")"@
}

/// Renders one link as a CQL value.
pub fn format_link(link: &LinkEntry) -> (text: String)
    ensures
        text@ == rendered_link(link@),
{
    let mut text = String::from_str("{url:'");
    text.append(link.url.as_str());
    text.append("',text:'");
    text.append(link.anchor_text.as_str());
    text.append("',path:'");
    text.append(link.path.as_str());
    text.append("'}");
    text
}

/// Renders the links as a CQL list, in their order.
pub fn format_links(links: &Vec<LinkEntry>) -> (text: String)
    ensures
        text@ == rendered_list(link_views(links@)),
{
    let ghost views = link_views(links@);
    let mut text = String::from_str("[");
    let mut index: usize = 0;
    assert(views.take(0) =~= Seq::<LinkView>::empty());
    while index < links.len()
        invariant
            index <= links.len(),
            views == link_views(links@),
            text@ == "["@ + rendered_links(views.take(index as int)),
        decreases links.len() - index,
    {
        let ghost done = views.take(index as int);
        let ghost grown = views.take(index as int + 1);
        assert(grown.drop_last() =~= done);
        assert(grown.last() == links@[index as int]@);
        if index > 0 {
            text.append(",");
        }
        let piece = format_link(&links[index]);
        text.append(piece.as_str());
        assert(text@ =~= "["@ + rendered_links(grown));
        index = index + 1;
    }
    assert(views.take(index as int) =~= views);
    text.append("]");
    text
}

/// Renders the statement that inserts `record`.
pub fn insert_statement(record: &PageRecord) -> (text: String)
    ensures
        text@ == rendered_insert(record@),
{
    let mut text = String::from_str("INSERT INTO graph.sites (uuid, url, links) VALUES (");
    text.append(record.id.as_str());
    text.append(", '");
    text.append(record.url.as_str());
    text.append("', ");
    let list = format_links(&record.links);
    text.append(list.as_str());
    text.append(")");
    text
}

} // verus!
