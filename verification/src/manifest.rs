//! Web-app manifest lookup: the parse of the manifest text sits behind one
//! trusted wrapper that hands the icon entries out as plain values; picking
//! the first usable `src` and turning it into an icon candidate is
//! verified.

use vstd::prelude::*;
use crate::urls::{normalize_link, normalized_of};

verus! {

/// What parsing a manifest text yields: for each entry of its `icons`
/// array, in order, the entry's string `src` if it has one; an empty
/// sequence for text that is not valid JSON or has no `icons` array.
pub uninterp spec fn manifest_icon_srcs_of(text: Seq<char>) -> Seq<Option<Seq<char>>>;

/// Relies on `serde_json::from_str` and the `serde_json::Value` accessors
/// `get`, `as_array` and `as_str`: the icon entries of a manifest are a
/// pure function of the manifest text.
#[verifier::external_body]
fn manifest_icon_srcs(text: &str) -> (r: Vec<Option<String>>)
    ensures
        r.deep_view() == manifest_icon_srcs_of(text@),
{
    let value: serde_json::Value = match serde_json::from_str(text) {
        Ok(v) => v,
        Err(_) => return Vec::new(),
    };
    match value.get("icons").and_then(|i| i.as_array()) {
        Some(entries) => entries
            .iter()
            .map(|e| e.get("src").and_then(|s| s.as_str()).map(String::from))
            .collect(),
        None => Vec::new(),
    }
}

/// The first present member of `srcs`.
pub open spec fn first_present(srcs: Seq<Option<Seq<char>>>) -> Option<Seq<char>>
    decreases srcs.len(),
{
    if srcs.len() == 0 {
        None
    } else if srcs[0] is Some {
        srcs[0]
    } else {
        first_present(srcs.drop_first())
    }
}

/// The `src` of the first icon entry that carries one.
pub open spec fn manifest_icon_src_of(text: Seq<char>) -> Option<Seq<char>> {
    first_present(manifest_icon_srcs_of(text))
}

/// The icon candidate a fetched manifest yields against a base URL: the
/// first icon `src`, normalized; `None` when the manifest yields no `src`
/// or normalization fails. A manifest that yields `None` never ends the
/// discovery chain.
pub open spec fn manifest_candidate_of(text: Seq<char>, base: Seq<char>) -> Option<Seq<char>> {
    match manifest_icon_src_of(text) {
        Some(src) => normalized_of(src, base),
        None => None,
    }
}

/// The `src` of the first icon entry of the manifest text that carries one.
pub fn manifest_icon_src(text: &str) -> (r: Option<String>)
    ensures
        r.deep_view() == manifest_icon_src_of(text@),
{
    let srcs = manifest_icon_srcs(text);
    let ghost dv = srcs.deep_view();
    let mut i: usize = 0;
    proof {
        assert(dv.skip(0) =~= dv);
    }
    while i < srcs.len()
        invariant
            i <= srcs.len(),
            dv == srcs.deep_view(),
            dv == manifest_icon_srcs_of(text@),
            dv.len() == srcs.len(),
            first_present(dv) == first_present(dv.skip(i as int)),
        decreases srcs.len() - i,
    {
        proof {
            assert(dv[i as int] == srcs@[i as int].deep_view());
            assert(dv.skip(i as int)[0] == dv[i as int]);
            assert(dv.skip(i as int).drop_first() =~= dv.skip(i as int + 1));
        }
        match &srcs[i] {
            Some(src) => {
                return Some(src.clone());
            },
            None => {},
        }
        i = i + 1;
    }
    proof {
        assert(dv.skip(i as int) =~= Seq::empty());
    }
    None
}

/// The icon candidate of one fetched manifest text, against `base`.
pub fn manifest_candidate(text: &str, base: &str) -> (r: Option<String>)
    ensures
        r.deep_view() == manifest_candidate_of(text@, base@),
{
    match manifest_icon_src(text) {
        Some(src) => normalize_link(src.as_str(), base),
        None => None,
    }
}

} // verus!
