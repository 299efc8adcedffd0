//! URL validation, normalization against a base, and the validated target
//! site that a resolution runs against.

use vstd::prelude::*;
use crate::strings::{has_prefix, seq_has_prefix};

verus! {

/// What `url::Url::parse` followed by serialization returns for a given text:
/// `Some` with the normalized absolute URL when the text parses, `None` otherwise.
pub uninterp spec fn url_norm_of(s: Seq<char>) -> Option<Seq<char>>;

/// What joining a relative reference against a parsed base returns:
/// `Some` with the serialized result when the base parses and the join
/// succeeds, `None` otherwise.
pub uninterp spec fn url_join_of(base: Seq<char>, rel: Seq<char>) -> Option<Seq<char>>;

/// Relies on `url::Url::parse` and the `Display` serialization of `url::Url`:
/// the parse of a URL text, and its serialized form, are pure functions of
/// the text alone.
#[verifier::external_body]
pub fn parse_url(s: &str) -> (r: Option<String>)
    ensures
        r.deep_view() == url_norm_of(s@),
{
    url::Url::parse(s).ok().map(|u| u.to_string())
}

/// Relies on `url::Url::parse` and `url::Url::join`: the result of resolving
/// a (possibly relative) reference against a base URL is a pure function of
/// the two texts alone.
#[verifier::external_body]
pub fn join_url(base: &str, rel: &str) -> (r: Option<String>)
    ensures
        r.deep_view() == url_join_of(base@, rel@),
{
    url::Url::parse(base).ok().and_then(|b| b.join(rel).ok()).map(|u| u.to_string())
}

/// `s` is already an absolute `http(s)` URL, by its scheme prefix.
pub open spec fn is_abs_http(s: Seq<char>) -> bool {
    seq_has_prefix(s, "http://"@) || seq_has_prefix(s, "https://"@)
}

/// The absolute URL that a discovered link value stands for: an absolute
/// `http(s)` value is kept verbatim, anything else is resolved against the
/// site's base URL; `None` when that resolution fails.
pub open spec fn normalized_of(link: Seq<char>, base: Seq<char>) -> Option<Seq<char>> {
    if is_abs_http(link) {
        Some(link)
    } else {
        url_join_of(base, link)
    }
}

/// Whether `s` is an absolute `http(s)` URL by its scheme prefix.
pub fn is_absolute_http(s: &str) -> (r: bool)
    ensures
        r == is_abs_http(s@),
{
    has_prefix(s, "http://") || has_prefix(s, "https://")
}

/// Normalize a discovered link value to an absolute URL against `base`.
pub fn normalize_link(link: &str, base: &str) -> (r: Option<String>)
    ensures
        r.deep_view() == normalized_of(link@, base@),
{
    if is_absolute_http(link) {
        Some(link.to_owned())
    } else {
        join_url(base, link)
    }
}

/// Absolute `http(s)` link values are returned unchanged by normalization;
/// every other value is resolved against the base URL.
pub proof fn lemma_normalization(link: Seq<char>, base: Seq<char>)
    ensures
        is_abs_http(link) ==> normalized_of(link, base) == Some(link),
        !is_abs_http(link) ==> normalized_of(link, base) == url_join_of(base, link),
{
}

/// A validated base URL: the subject of one resolution, immutable once
/// constructed.
#[derive(Debug, Clone, PartialEq, Eq)]
pub struct TargetSite {
    pub url: String,
}

impl TargetSite {
    /// The site's URL text parses as a URL.
    pub open spec fn wf(&self) -> bool {
        url_norm_of(self.url@) is Some
    }

    /// Validate a URL text and construct the target site from it.
    pub fn new(url: &str) -> (r: Option<TargetSite>)
        ensures
            match r {
                Some(site) => site.url@ == url@ && site.wf(),
                None => url_norm_of(url@) is None,
            },
    {
        match parse_url(url) {
            Some(_) => Some(TargetSite { url: url.to_owned() }),
            None => None,
        }
    }
}

} // verus!
