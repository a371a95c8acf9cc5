//! Turning a raw HTML page into an article record: find the first
//! top-level heading (the title), find the main-content container, keep
//! its markup verbatim, and classify every hyperlink target inside it,
//! keeping only bare internal-article identifiers.

use vstd::prelude::*;
use crate::html::{
    doc_within_bounds, element_by_id, first_tag_text, query_element_by_id, query_first_tag_text,
};
use crate::record::{seq_view, ArticleRecord, ArticleView};
use crate::strutil::{is_prefix_of, str_starts_with, strip_prefix_chars};

verus! {

/// Tag name of the heading element whose text becomes the title.
pub open spec fn heading_tag() -> Seq<char> {
    "h1"@
}

/// The `id` of the main-content container in the source site's template.
pub open spec fn content_id() -> Seq<char> {
    "mw-content-text"@
}

/// Tag name of hyperlink elements.
pub open spec fn anchor_tag() -> Seq<char> {
    "a"@
}

/// Attribute of a hyperlink element holding its target reference.
pub open spec fn href_attr() -> Seq<char> {
    "href"@
}

/// Site-relative prefix of internal-article targets.
pub open spec fn article_prefix() -> Seq<char> {
    "/wiki/"@
}

/// Prefix of targets in the help namespace, which are discarded.
pub open spec fn help_prefix() -> Seq<char> {
    "/wiki/Help"@
}

/// Prefix of targets in the file namespace, which are discarded.
pub open spec fn file_prefix() -> Seq<char> {
    "/wiki/File"@
}

/// A hyperlink target survives classification: it is an internal-article
/// reference and lies in neither the help nor the file namespace.
pub open spec fn keeps_link(h: Seq<char>) -> bool {
    is_prefix_of(article_prefix(), h) && !is_prefix_of(help_prefix(), h) && !is_prefix_of(
        file_prefix(),
        h,
    )
}

/// The bare article identifier of a surviving target: the target with the
/// site-relative article prefix stripped.
pub open spec fn link_of(h: Seq<char>) -> Seq<char> {
    h.skip(article_prefix().len() as int)
}

/// `l` is the bare identifier of some surviving target among the first
/// `n` elements of `hs`.
pub open spec fn derived_from(hs: Seq<Seq<char>>, n: int, l: Seq<char>) -> bool {
    exists|i: int| 0 <= i < n && i < hs.len() && keeps_link(#[trigger] hs[i]) && l == link_of(hs[i])
}

/// The set of bare identifiers of the surviving targets among `hs`.
pub open spec fn link_set(hs: Seq<Seq<char>>) -> Set<Seq<char>> {
    Set::new(|l: Seq<char>| derived_from(hs, hs.len() as int, l))
}

/// Why extraction failed.
#[derive(Clone, Copy, PartialEq, Eq, Structural, Debug)]
pub enum ExtractionError {
    /// The document holds no top-level heading element, or the first one
    /// has empty text: a title must be a non-empty string.
    MissingTitle,
    /// The document holds no main-content container.
    MissingContent,
}

/// What extraction returns, as a function of the page text and the slug:
/// the title is the first top-level heading's text, which must be
/// non-empty, the content is the container's markup verbatim, and the
/// links are the surviving targets' bare identifiers.
pub open spec fn extract_spec(html: Seq<char>, slug: Seq<char>) -> Result<
    ArticleView,
    ExtractionError,
> {
    match first_tag_text(html, heading_tag()) {
        Option::None => Result::Err(ExtractionError::MissingTitle),
        Option::Some(title) => if title.len() == 0 {
            Result::Err(ExtractionError::MissingTitle)
        } else {
            match element_by_id(html, content_id(), anchor_tag(), href_attr()) {
                Option::None => Result::Err(ExtractionError::MissingContent),
                Option::Some(content) => Result::Ok(
                    ArticleView {
                        title,
                        slug,
                        content_html: content.0,
                        links: link_set(content.1),
                    },
                ),
            }
        },
    }
}

/// Whether `s@` already occurs among the views of `v`'s elements.
fn vec_contains(v: &Vec<String>, s: &String) -> (r: bool)
    ensures
        r == seq_view(v@).contains(s@),
{
    let mut j: usize = 0;
    while j < v.len()
        invariant
            j <= v@.len(),
            forall|k: int| 0 <= k < j ==> seq_view(v@)[k] != s@,
        decreases v@.len() - j,
    {
        if v[j] == *s {
            assert(seq_view(v@)[j as int] == s@);
            return true;
        }
        j = j + 1;
    }
    assert(forall|k: int| 0 <= k < seq_view(v@).len() ==> seq_view(v@)[k] != s@);
    false
}

/// Classifies every hyperlink target in `hrefs` and collects the bare
/// identifiers of the survivors, duplicates collapsed.
fn collect_links(hrefs: &Vec<String>) -> (r: Vec<String>)
    ensures
        forall|i: int, j: int| 0 <= i < j < r@.len() ==> r@[i]@ != r@[j]@,
        seq_view(r@).to_set() == link_set(seq_view(hrefs@)),
{
    let ghost hs = seq_view(hrefs@);
    let mut out: Vec<String> = Vec::new();
    let prefix_len: usize = "/wiki/".unicode_len();
    let mut i: usize = 0;
    while i < hrefs.len()
        invariant
            i <= hrefs@.len(),
            hs == seq_view(hrefs@),
            prefix_len == article_prefix().len(),
            forall|a: int, b: int| 0 <= a < b < out@.len() ==> out@[a]@ != out@[b]@,
            forall|j: int|
                0 <= j < i && keeps_link(#[trigger] hs[j]) ==> seq_view(out@).contains(
                    link_of(hs[j]),
                ),
            forall|k: int|
                0 <= k < out@.len() ==> derived_from(hs, i as int, (#[trigger] out@[k])@),
        decreases hrefs@.len() - i,
    {
        let h = &hrefs[i];
        let keep = str_starts_with(h.as_str(), "/wiki/") && !str_starts_with(h.as_str(), "/wiki/Help")
            && !str_starts_with(h.as_str(), "/wiki/File");
        if keep {
            let stripped = strip_prefix_chars(h.as_str(), prefix_len);
            assert(keeps_link(hs[i as int]));
            assert(stripped@ == link_of(hs[i as int]));
            if !vec_contains(&out, &stripped) {
                let ghost prev = out@;
                out.push(stripped);
                proof {
                    assert forall|j: int|
                        0 <= j <= i && keeps_link(#[trigger] hs[j]) implies seq_view(
                        out@,
                    ).contains(link_of(hs[j])) by {
                        if j < i {
                            let k = choose|k: int|
                                0 <= k < prev.len() && seq_view(prev)[k] == link_of(hs[j]);
                            assert(seq_view(out@)[k] == link_of(hs[j]));
                        } else {
                            assert(seq_view(out@)[prev.len() as int] == link_of(hs[j]));
                        }
                    }
                }
            }
        }
        i = i + 1;
    }
    proof {
        assert forall|l: Seq<char>| #[trigger] link_set(hs).contains(l) implies seq_view(
            out@,
        ).to_set().contains(l) by {
            let j = choose|j: int| 0 <= j < hs.len() && keeps_link(#[trigger] hs[j]) && l == link_of(hs[j]);
            assert(seq_view(out@).contains(link_of(hs[j])));
        }
        assert forall|l: Seq<char>| #[trigger] seq_view(out@).to_set().contains(l) implies link_set(
            hs,
        ).contains(l) by {
            let k = choose|k: int| 0 <= k < seq_view(out@).len() && seq_view(out@)[k] == l;
            assert(derived_from(hs, i as int, (out@[k])@));
        }
        assert(seq_view(out@).to_set() =~= link_set(hs));
    }
    out
}

/// Extracts an article record from raw page text.
///
/// Succeeds exactly when the page holds both a top-level heading with
/// non-empty text and the main-content container; the record then
/// matches `extract_spec` and its title is non-empty. Pure: identical
/// input text yields an identical record.
pub fn extract(html: &str, slug: &String) -> (r: Result<ArticleRecord, ExtractionError>)
    requires
        doc_within_bounds(html@),
    ensures
        match r {
            Result::Ok(rec) => {
                &&& rec.wf()
                &&& rec.slug@ == slug@
                &&& rec.title@.len() > 0
                &&& extract_spec(html@, slug@) == Result::<ArticleView, ExtractionError>::Ok(rec@)
            },
            Result::Err(e) => extract_spec(html@, slug@) == Result::<
                ArticleView,
                ExtractionError,
            >::Err(e),
        },
{
    let title = match query_first_tag_text(html, "h1") {
        Option::None => { return Result::Err(ExtractionError::MissingTitle) },
        Option::Some(t) => t,
    };
    if title.as_str().is_empty() {
        return Result::Err(ExtractionError::MissingTitle);
    }
    let content = match query_element_by_id(html, "mw-content-text", "a", "href") {
        Option::None => { return Result::Err(ExtractionError::MissingContent) },
        Option::Some(c) => c,
    };
    let links = collect_links(&content.1);
    let rec = ArticleRecord { title, slug: slug.clone(), content_html: content.0, links };
    proof {
        assert(rec@ =~= extract_spec(html@, slug@)->Ok_0);
    }
    Result::Ok(rec)
}

} // verus!
