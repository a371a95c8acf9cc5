//! Trusted boundary to the `select` HTML parser.
//!
//! Parsing an HTML document is far too large to state here, but it is a
//! pure function of the document text, so each query's result is given a
//! name (an uninterpreted spec function) and the wrapper's contract ties
//! the runtime result to that name. Everything downstream is verified
//! against the names alone.
//!
//! The parser copies the document into 32-bit-length buffers that grow by
//! rounding the needed capacity up to a power of two, and aborts once a
//! buffer would pass `2^31` bytes. Both wrappers therefore require the
//! document to stay under [`MAX_DOC_CHARS`] characters: a character
//! encodes to at most four bytes, which keeps every buffer's needed
//! capacity strictly below `2^31`.

use vstd::prelude::*;
use crate::record::seq_view;

verus! {

/// Largest document, in characters, the parser boundary accepts:
/// `2^29 - 1`, so that the byte length stays below `2^31`, the largest
/// capacity the parser's buffers can grow to.
pub const MAX_DOC_CHARS: usize = 0x1FFF_FFFF;

/// The document is small enough for the parser boundary.
pub open spec fn doc_within_bounds(doc: Seq<char>) -> bool {
    doc.len() <= MAX_DOC_CHARS
}

/// The text content of the first element with the given tag name, if the
/// document holds one. A pure function of the document text and the tag.
pub uninterp spec fn first_tag_text(doc: Seq<char>, tag: Seq<char>) -> Option<Seq<char>>;

/// For the first element whose `id` attribute equals `id`: its serialized
/// markup, paired with the values that attribute `link_attr` takes on its
/// `link_tag` descendants, in document order. `None` when no element has
/// that `id`. A pure function of its arguments.
pub uninterp spec fn element_by_id(
    doc: Seq<char>,
    id: Seq<char>,
    link_tag: Seq<char>,
    link_attr: Seq<char>,
) -> Option<(Seq<char>, Seq<Seq<char>>)>;

/// Relies on select's `Document::from`, `Document::find` with a `Name`
/// predicate, and `Node::text`: the text of the first element with tag
/// name `tag` depends on the document text and the tag alone. The size
/// bound keeps every internal buffer within the parser's power-of-two
/// growth limit of `2^31` bytes. Tree construction and text collection
/// recurse per nesting level, so a pathologically deeply nested document
/// can still exhaust memory; no precondition can state that, and it
/// stays a resource limit, not a contract.
#[verifier::external_body]
pub(crate) fn query_first_tag_text(doc: &str, tag: &str) -> (r: Option<String>)
    requires
        doc_within_bounds(doc@),
    ensures
        match r {
            Some(t) => first_tag_text(doc@, tag@) == Some(t@),
            None => first_tag_text(doc@, tag@) is None,
        },
{
    let document = select::document::Document::from(doc);
    let found = document.find(select::predicate::Name(tag)).next();
    found.map(|node| node.text())
}

/// Relies on select's `Document::from`, `Document::find` with an `Attr`
/// predicate, `Node::html`, `Node::find` with a `Name` predicate and
/// `Node::attr`: which element carries the `id`, its serialized markup and
/// its descendants' attribute values depend on the arguments alone. The
/// size bound and the note on deeply nested documents are as on
/// `query_first_tag_text`.
#[verifier::external_body]
pub(crate) fn query_element_by_id(doc: &str, id: &str, link_tag: &str, link_attr: &str) -> (r:
    Option<(String, Vec<String>)>)
    requires
        doc_within_bounds(doc@),
    ensures
        match r {
            Some(p) => element_by_id(doc@, id@, link_tag@, link_attr@) == Some(
                (p.0@, seq_view(p.1@)),
            ),
            None => element_by_id(doc@, id@, link_tag@, link_attr@) is None,
        },
{
    let document = select::document::Document::from(doc);
    let container = document.find(select::predicate::Attr("id", id)).next()?;
    let mut values: Vec<String> = Vec::new();
    for node in container.find(select::predicate::Name(link_tag)) {
        if let Some(value) = node.attr(link_attr) {
            values.push(String::from(value));
        }
    }
    Some((container.html(), values))
}

} // verus!
