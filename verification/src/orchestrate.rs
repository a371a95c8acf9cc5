//! Resolving a slug on a cache miss: classify the upstream fetch outcome,
//! extract a record from a usable page, populate the cache, and propagate
//! failures without ever caching anything on a failed resolution.
//!
//! The upstream fetch itself is an injected capability: the caller
//! performs it (or stubs it) and hands its outcome in as a value, so the
//! decision logic here is a pure function of that outcome.

use vstd::prelude::*;
use crate::cache::{add_updates, Cache};
use crate::extract::{extract, extract_spec};
use crate::html::{doc_within_bounds, MAX_DOC_CHARS};
use crate::record::{ArticleRecord, ArticleView};
use vstd::string::*;

verus! {

/// Why a slug could not be resolved.
#[derive(Clone, Copy, PartialEq, Eq, Structural, Debug)]
pub enum FetchError {
    /// The upstream fetch failed: transport error, non-success status, or
    /// a body that is empty or too large to read.
    UpstreamUnavailable,
    /// The fetched page lacked a detectable title or main-content
    /// container.
    MalformedPage,
}

/// What the upstream transport produced for one fetch.
pub enum FetchOutcome {
    /// The request did not complete at all.
    Failed,
    /// The upstream answered with this HTTP status and body text.
    Completed { status: u16, body: String },
}

/// A usable upstream answer: the request completed with a success status
/// and a non-empty body that fits the parser boundary's size bound; a
/// larger body counts as unreadable.
pub open spec fn fetch_usable(o: FetchOutcome) -> bool {
    match o {
        FetchOutcome::Failed => false,
        FetchOutcome::Completed { status, body } => 200 <= status < 300 && body@.len() > 0
            && doc_within_bounds(body@),
    }
}

/// The page text of a completed fetch.
pub open spec fn outcome_body(o: FetchOutcome) -> Seq<char> {
    match o {
        FetchOutcome::Failed => Seq::empty(),
        FetchOutcome::Completed { body, .. } => body@,
    }
}

/// What resolving a cache miss returns, as a function of the upstream
/// outcome and the slug: an unusable answer is `UpstreamUnavailable`, a
/// usable page that defeats extraction is `MalformedPage`, and otherwise
/// the extracted record comes back.
pub open spec fn resolve_spec(o: FetchOutcome, slug: Seq<char>) -> Result<ArticleView, FetchError> {
    if !fetch_usable(o) {
        Result::Err(FetchError::UpstreamUnavailable)
    } else {
        match extract_spec(outcome_body(o), slug) {
            Result::Ok(v) => Result::Ok(v),
            Result::Err(_) => Result::Err(FetchError::MalformedPage),
        }
    }
}

/// Finishes resolving a slug the cache did not hold, given the outcome of
/// the upstream fetch the caller performed.
///
/// On success the extracted record is cached under the slug and returned;
/// on any failure the error is propagated and the cache is left exactly
/// as it was — a failed resolution never inserts anything.
pub fn resolve_fetched(cache: &mut Cache, slug: &String, outcome: FetchOutcome) -> (r: Result<
    ArticleRecord,
    FetchError,
>)
    requires
        old(cache).wf(),
    ensures
        final(cache).wf(),
        match r {
            Result::Ok(rec) => {
                &&& rec.wf()
                &&& rec.slug@ == slug@
                &&& resolve_spec(outcome, slug@) == Result::<ArticleView, FetchError>::Ok(rec@)
                &&& add_updates(*old(cache), *final(cache), rec)
            },
            Result::Err(e) => {
                &&& resolve_spec(outcome, slug@) == Result::<ArticleView, FetchError>::Err(e)
                &&& *final(cache) == *old(cache)
            },
        },
{
    let body = match outcome {
        FetchOutcome::Failed => {
            return Result::Err(FetchError::UpstreamUnavailable);
        },
        FetchOutcome::Completed { status, body } => {
            if status < 200 || status >= 300 || body.as_str().is_empty()
                || body.as_str().unicode_len() > MAX_DOC_CHARS {
                return Result::Err(FetchError::UpstreamUnavailable);
            }
            body
        },
    };
    match extract(body.as_str(), slug) {
        Result::Err(_) => Result::Err(FetchError::MalformedPage),
        Result::Ok(rec) => {
            let kept = rec.duplicate();
            cache.add(kept);
            Result::Ok(rec)
        },
    }
}

/// Site origin that article pages hang off: the fixed prefix of every
/// upstream fetch URL.
pub open spec fn article_origin() -> Seq<char> {
    "https://en.wikipedia.org/wiki/"@
}

/// The canonical page URL for a slug: the fixed origin with the slug
/// appended verbatim, untransformed. The boundary fetches this URL on a
/// cache miss.
pub fn article_url(slug: &String) -> (r: String)
    ensures
        r@ == article_origin() + slug@,
{
    let mut url = String::from_str("https://en.wikipedia.org/wiki/");
    url.append(slug.as_str());
    url
}

} // verus!
