//! Joining computed paths onto the cluster's base URL.
//!
//! The library computes REST paths itself and keeps URLs as plain
//! strings; the `url` crate does the actual RFC-conformant joining and
//! query-pair encoding.  Both operations are fixed functions of their
//! inputs, named here without restating the URL grammar.

use vstd::prelude::*;

verus! {

/// What joining `path` onto the absolute base URL `base` yields:
/// `None` when `base` does not parse as an absolute URL or the join
/// fails, otherwise the resulting URL in serialized form.
pub uninterp spec fn joined_url(base: Seq<char>, path: Seq<char>) -> Option<Seq<char>>;

/// What appending the given query pairs, in the order supplied and
/// percent-encoded, to the serialized URL `u` yields: `None` when `u`
/// does not parse as an absolute URL.
pub uninterp spec fn url_with_query_pairs(
    u: Seq<char>,
    pairs: Seq<(Seq<char>, Seq<char>)>,
) -> Option<Seq<char>>;

/// The views of a list of owned query pairs.
pub open spec fn pair_views(pairs: Seq<(String, String)>) -> Seq<(Seq<char>, Seq<char>)> {
    pairs.map_values(|p: (String, String)| (p.0@, p.1@))
}

/// Relies on `url::Url::parse` and `url::Url::join`: both depend on
/// their text inputs alone; `join` resolves the path against the base
/// as a browser would resolve a link on a page.
#[verifier::external_body]
pub fn join_url(base: &str, path: &str) -> (r: Option<String>)
    ensures
        r is Some <==> joined_url(base@, path@) is Some,
        r matches Some(u) ==> joined_url(base@, path@) == Some(u@),
{
    match url::Url::parse(base) {
        Ok(b) => match b.join(path) {
            Ok(u) => Some(String::from(u.as_str())),
            Err(_) => None,
        },
        Err(_) => None,
    }
}

/// Relies on `url::Url::parse` and
/// `url::Url::query_pairs_mut` / `form_urlencoded::Serializer::extend_pairs`:
/// the pairs are appended to the URL's query in the order supplied,
/// percent-encoded, depending on the inputs alone.
#[verifier::external_body]
pub fn append_query_pairs(u: &str, pairs: &Vec<(String, String)>) -> (r: Option<String>)
    ensures
        r is Some <==> url_with_query_pairs(u@, pair_views(pairs@)) is Some,
        r matches Some(q) ==> url_with_query_pairs(u@, pair_views(pairs@)) == Some(q@),
{
    match url::Url::parse(u) {
        Ok(mut parsed) => {
            parsed.query_pairs_mut().extend_pairs(pairs.iter().map(|p| (&p.0, &p.1)));
            Some(String::from(parsed.as_str()))
        },
        Err(_) => None,
    }
}

} // verus!
