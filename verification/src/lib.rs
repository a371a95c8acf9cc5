//! A verified fetch-parse-cache pipeline for Wikipedia-style articles.
//!
//! The library turns a raw HTML page into a structured article record
//! (title, slug, main-content markup, outbound internal links), memoizes
//! records in a cache keyed by slug, and decides, per request, whether to
//! serve from the cache or to ask the caller for an upstream fetch whose
//! outcome is then classified and, on success, cached.

pub mod record;
pub mod strutil;
pub mod html;
pub mod extract;
pub mod cache;
pub mod orchestrate;
pub mod handler;
