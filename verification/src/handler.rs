//! The boundary-facing request handler: serve a slug from the cache when
//! it is there, otherwise ask the caller for one upstream fetch and finish
//! from its outcome; map every result to a response payload.
//!
//! Status policy (chosen here and documented, as the external interface
//! leaves the exact codes free): success is 200; an unreachable upstream
//! is 502; an unparseable page is 422.

use vstd::prelude::*;
use crate::cache::{add_updates, lookup_hit_updates, Cache};
use vstd::string::*;
use crate::orchestrate::{resolve_fetched, resolve_spec, FetchError, FetchOutcome};
use crate::record::{ArticleRecord, ArticleView};

verus! {

/// Status of a successful response.
pub const SUCCESS_STATUS: u16 = 200;

/// Status reported when the upstream could not be fetched.
pub const UNAVAILABLE_STATUS: u16 = 502;

/// Status reported when the fetched page could not be parsed.
pub const MALFORMED_STATUS: u16 = 422;

/// The status a failure kind maps to.
pub open spec fn error_status(e: FetchError) -> u16 {
    match e {
        FetchError::UpstreamUnavailable => UNAVAILABLE_STATUS,
        FetchError::MalformedPage => MALFORMED_STATUS,
    }
}

/// What a response carries: a complete article record, or the failure
/// kind — never a partial record.
pub enum ResponseBody {
    Article(ArticleRecord),
    Problem(FetchError),
}

/// A transport-agnostic response payload.
pub struct ApiResponse {
    pub status: u16,
    pub body: ResponseBody,
}

/// Maps a resolution outcome to a response: the record with the success
/// status, or the failure kind with its distinguishing status. The only
/// place a failure kind is turned into a status code.
pub fn to_response(outcome: Result<ArticleRecord, FetchError>) -> (r: ApiResponse)
    ensures
        match outcome {
            Result::Ok(rec) => r.status == SUCCESS_STATUS && r.body == ResponseBody::Article(rec),
            Result::Err(e) => r.status == error_status(e) && r.body == ResponseBody::Problem(e),
        },
{
    match outcome {
        Result::Ok(rec) => ApiResponse { status: SUCCESS_STATUS, body: ResponseBody::Article(rec) },
        Result::Err(e) => ApiResponse { status: error_status_code(e), body: ResponseBody::Problem(e) },
    }
}

/// Executable twin of `error_status`.
fn error_status_code(e: FetchError) -> (s: u16)
    ensures
        s == error_status(e),
{
    match e {
        FetchError::UpstreamUnavailable => UNAVAILABLE_STATUS,
        FetchError::MalformedPage => MALFORMED_STATUS,
    }
}

/// First phase of handling `GET /article/{slug}`: serve from the cache.
///
/// Returns the response when the slug is cached (the hit also raises the
/// slug's access counter); returns `None`, with the cache untouched,
/// exactly when the slug is absent — the caller must then perform one
/// upstream fetch and finish with `handle_fetched`.
pub fn handle_cached(cache: &mut Cache, slug: &String) -> (r: Option<ApiResponse>)
    requires
        old(cache).wf(),
    ensures
        final(cache).wf(),
        match r {
            Option::Some(resp) => {
                &&& lookup_hit_updates(*old(cache), *final(cache), slug@)
                &&& resp.status == SUCCESS_STATUS
                &&& resp.body matches ResponseBody::Article(rec) && rec.wf() && rec@ == old(
                    cache,
                ).records()[slug@]
            },
            Option::None => {
                &&& !old(cache).records().contains_key(slug@)
                &&& *final(cache) == *old(cache)
            },
        },
{
    match cache.lookup(slug) {
        Option::Some(rec) => Option::Some(to_response(Result::Ok(rec))),
        Option::None => Option::None,
    }
}

/// Second phase of handling a request whose slug was not cached: classify
/// the upstream outcome, cache the extracted record on success, and map
/// the result to a response. On failure the cache is left untouched.
pub fn handle_fetched(cache: &mut Cache, slug: &String, outcome: FetchOutcome) -> (r: ApiResponse)
    requires
        old(cache).wf(),
    ensures
        final(cache).wf(),
        match resolve_spec(outcome, slug@) {
            Result::Ok(v) => {
                &&& r.status == SUCCESS_STATUS
                &&& r.body matches ResponseBody::Article(rec) && rec.wf() && rec@ == v
                    && rec.slug@ == slug@ && add_updates(*old(cache), *final(cache), rec)
            },
            Result::Err(e) => {
                &&& r.status == error_status(e)
                &&& r.body == ResponseBody::Problem(e)
                &&& *final(cache) == *old(cache)
            },
        },
{
    let outcome = resolve_fetched(cache, slug, outcome);
    to_response(outcome)
}

/// A character acceptable in a slug: printable, not a space, and none of
/// the separators and markers that would change the meaning of the fetch
/// URL the slug is spliced into (`/`, `?`, `#`, quoting and bracket
/// characters).
pub open spec fn slug_char_ok(c: char) -> bool {
    let u = c as u32;
    &&& u > 0x20
    &&& u != 0x7F
    &&& c != '"' && c != '#' && c != '<' && c != '>' && c != '?'
    &&& c != '[' && c != ']' && c != '\\' && c != '^' && c != '`'
    &&& c != '{' && c != '|' && c != '}' && c != '/'
}

/// A valid slug: non-empty, every character acceptable.
pub open spec fn valid_slug(s: Seq<char>) -> bool {
    s.len() > 0 && forall|i: int| 0 <= i < s.len() ==> slug_char_ok(#[trigger] s[i])
}

/// Whether the boundary should accept `slug`. Slugs travel verbatim into
/// the upstream fetch URL, so path separators and query or fragment
/// markers are refused here, before any resolution starts.
pub fn slug_ok(slug: &String) -> (r: bool)
    ensures
        r == valid_slug(slug@),
{
    let s = slug.as_str();
    let n = s.unicode_len();
    if n == 0 {
        return false;
    }
    let mut i: usize = 0;
    while i < n
        invariant
            i <= n,
            n == s@.len(),
            s@ == slug@,
            s@.len() > 0,
            forall|j: int| 0 <= j < i ==> slug_char_ok(#[trigger] s@[j]),
        decreases n - i,
    {
        let c = s.get_char(i);
        let u = c as u32;
        if u <= 0x20 || u == 0x7F || c == '"' || c == '#' || c == '<' || c == '>' || c == '?'
            || c == '[' || c == ']' || c == '\\' || c == '^' || c == '`' || c == '{' || c == '|'
            || c == '}' || c == '/' {
            assert(!slug_char_ok(s@[i as int]));
            return false;
        }
        i = i + 1;
    }
    true
}

} // verus!
