//! The structured article record and its mathematical view.

use vstd::prelude::*;

verus! {

/// Mathematical view of an article record: every field as a plain
/// mathematical value, with the links collapsed into a set.
pub struct ArticleView {
    pub title: Seq<char>,
    pub slug: Seq<char>,
    pub content_html: Seq<char>,
    pub links: Set<Seq<char>>,
}

/// The view of a sequence of strings: each element replaced by its
/// character sequence.
pub open spec fn seq_view(ss: Seq<String>) -> Seq<Seq<char>> {
    ss.map_values(|s: String| s@)
}

/// One scraped article.
///
/// `links` carries the set of outbound internal-article slugs; it is kept
/// as a duplicate-free vector whose order carries no meaning, and it views
/// as a set.
#[derive(Debug)]
pub struct ArticleRecord {
    /// Display title: the text of the first top-level heading of the page.
    pub title: String,
    /// Canonical identifier; the cache key.
    pub slug: String,
    /// Serialized markup of the main content region, stored verbatim.
    pub content_html: String,
    /// Outbound internal-article slugs, duplicates collapsed, order free.
    pub links: Vec<String>,
}

impl ArticleRecord {
    /// The links vector holds no duplicate entries.
    pub open spec fn links_distinct(self) -> bool {
        forall|i: int, j: int|
            0 <= i < j < self.links@.len() ==> self.links@[i]@ != self.links@[j]@
    }

    /// Well-formedness: the record's only internal invariant.
    pub open spec fn wf(self) -> bool {
        self.links_distinct()
    }

    /// A deep copy: every field holds the same value as the original.
    pub fn duplicate(&self) -> (r: ArticleRecord)
        ensures
            r.title@ == self.title@,
            r.slug@ == self.slug@,
            r.content_html@ == self.content_html@,
            r.links@ == self.links@,
            r@ == self@,
            r.wf() == self.wf(),
    {
        ArticleRecord {
            title: self.title.clone(),
            slug: self.slug.clone(),
            content_html: self.content_html.clone(),
            links: clone_strings(&self.links),
        }
    }
}

impl View for ArticleRecord {
    type V = ArticleView;

    open spec fn view(&self) -> ArticleView {
        ArticleView {
            title: self.title@,
            slug: self.slug@,
            content_html: self.content_html@,
            links: seq_view(self.links@).to_set(),
        }
    }
}

/// Copies a vector of strings element by element, preserving every value.
pub fn clone_strings(v: &Vec<String>) -> (r: Vec<String>)
    ensures
        r@ == v@,
{
    let mut r: Vec<String> = Vec::new();
    let mut i: usize = 0;
    while i < v.len()
        invariant
            i <= v@.len(),
            r@ == v@.subrange(0, i as int),
        decreases v@.len() - i,
    {
        r.push(v[i].clone());
        assert(r@ =~= v@.subrange(0, i as int + 1));
        i = i + 1;
    }
    assert(r@ =~= v@);
    r
}

} // verus!
