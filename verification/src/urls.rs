//! URLs, read with the `url` crate.
use vstd::prelude::*;

use crate::text;

verus! {

/// The view of an optional list of texts.
pub open spec fn opt_texts(v: Option<Vec<String>>) -> Option<Seq<Seq<char>>> {
    match v {
        Some(v) => Some(text::texts(v@)),
        None => None,
    }
}

/// The text that a URL is normalised to, as `Url::parse` reads it; none for a
/// text that is no URL.
pub uninterp spec fn normal_url(url: Seq<char>) -> Option<Seq<char>>;

/// Parses a text with `url::Url::parse` and gives the URL back as text. The
/// result depends on the text alone.
#[verifier::external_body]
pub(crate) fn parse_url(url: &str) -> (r: Option<String>)
    ensures
        text::opt_text(r) == normal_url(url@),
{
    Some(url::Url::parse(url).ok()?.to_string())
}

/// The URL that a reference leads to from a base URL, as `Url::join` resolves
/// it; none where the base is no URL or the reference cannot be resolved.
pub uninterp spec fn joined_url(base: Seq<char>, reference: Seq<char>) -> Option<Seq<char>>;

/// Resolves a reference with `url::Url::join`. The result depends on the base
/// and the reference alone.
#[verifier::external_body]
pub(crate) fn join_url(base: &str, reference: &str) -> (r: Option<String>)
    ensures
        text::opt_text(r) == joined_url(base@, reference@),
{
    Some(url::Url::parse(base).ok()?.join(reference).ok()?.to_string())
}

/// The segments of a URL's path, as `Url::path_segments` splits it; none for a
/// text that is no URL or a URL without a path of segments.
pub uninterp spec fn segments_of(url: Seq<char>) -> Option<Seq<Seq<char>>>;

/// Splits a URL's path with `url::Url::path_segments`, which gives at least one
/// segment wherever it gives any. The result depends on the text alone.
#[verifier::external_body]
pub(crate) fn path_segments(url: &str) -> (r: Option<Vec<String>>)
    ensures
        opt_texts(r) == segments_of(url@),
        r is Some ==> (r->0).len() > 0,
{
    let parsed = url::Url::parse(url).ok()?;
    let segments = parsed.path_segments()?;
    Some(segments.map(|s| s.to_string()).collect())
}

/// The keys of a URL's query, as `Url::query_pairs` decodes them; none for a
/// text that is no URL.
pub uninterp spec fn query_keys_of(url: Seq<char>) -> Option<Seq<Seq<char>>>;

/// Decodes the keys of a URL's query with `url::Url::query_pairs`. The result
/// depends on the text alone.
#[verifier::external_body]
pub(crate) fn query_keys(url: &str) -> (r: Option<Vec<String>>)
    ensures
        opt_texts(r) == query_keys_of(url@),
{
    let parsed = url::Url::parse(url).ok()?;
    Some(parsed.query_pairs().map(|pair| pair.0.into_owned()).collect())
}

} // verus!
