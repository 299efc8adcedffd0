//! Scanning the site's root HTML document for icon links: the attribute
//! pairs of the document's elements come from an HTML parser behind one
//! trusted wrapper; the priority scan over them is verified.

use vstd::prelude::*;
use soup::NodeExt;
use soup::QueryBuilderExt;
use crate::urls::{normalize_link, normalized_of, parse_url, url_norm_of};

verus! {

/// What an HTML parse yields for the elements named `tag` of a document:
/// in document order, each element's `name_attr` and `value_attr` attribute
/// values, absent attributes as `None`.
pub uninterp spec fn tag_attrs_of(
    html: Seq<char>,
    tag: Seq<char>,
    name_attr: Seq<char>,
    value_attr: Seq<char>,
) -> Seq<(Option<Seq<char>>, Option<Seq<char>>)>;

/// Relies on `soup::Soup` (html5ever): the parse of an HTML document, and so
/// the list of elements with a given tag name together with their attribute
/// values, is a pure function of the document text.
#[verifier::external_body]
fn tag_attrs(html: &str, tag: &str, name_attr: &str, value_attr: &str) -> (r: Vec<
    (Option<String>, Option<String>),
>)
    ensures
        r.deep_view() == tag_attrs_of(html@, tag@, name_attr@, value_attr@),
{
    soup::Soup::new(html)
        .tag(tag)
        .find_all()
        .map(|n| (n.get(name_attr), n.get(value_attr)))
        .collect()
}

/// The `link` elements of the document, as their `rel` and `href` attributes.
pub open spec fn links_of(html: Seq<char>) -> Seq<(Option<Seq<char>>, Option<Seq<char>>)> {
    tag_attrs_of(html, "link"@, "rel"@, "href"@)
}

/// The `meta` elements of the document, as their `property` and `content`
/// attributes.
pub open spec fn metas_of(html: Seq<char>) -> Seq<(Option<Seq<char>>, Option<Seq<char>>)> {
    tag_attrs_of(html, "meta"@, "property"@, "content"@)
}

/// The `link` elements of `html` as their (`rel`, `href`) attribute pairs.
pub fn link_tags(html: &str) -> (r: Vec<(Option<String>, Option<String>)>)
    ensures
        r.deep_view() == links_of(html@),
{
    tag_attrs(html, "link", "rel", "href")
}

/// The `meta` elements of `html` as their (`property`, `content`) attribute
/// pairs.
pub fn meta_tags(html: &str) -> (r: Vec<(Option<String>, Option<String>)>)
    ensures
        r.deep_view() == metas_of(html@),
{
    tag_attrs(html, "meta", "property", "content")
}

/// The value of the first pair whose name is `name` and whose value is
/// present.
pub open spec fn first_value_for(
    pairs: Seq<(Option<Seq<char>>, Option<Seq<char>>)>,
    name: Seq<char>,
) -> Option<Seq<char>>
    decreases pairs.len(),
{
    if pairs.len() == 0 {
        None
    } else if pairs[0].0 == Some(name) && pairs[0].1 is Some {
        pairs[0].1
    } else {
        first_value_for(pairs.drop_first(), name)
    }
}

/// All values of pairs whose name is `name` and whose value is present, in
/// order.
pub open spec fn values_for(
    pairs: Seq<(Option<Seq<char>>, Option<Seq<char>>)>,
    name: Seq<char>,
) -> Seq<Seq<char>>
    decreases pairs.len(),
{
    if pairs.len() == 0 {
        Seq::empty()
    } else {
        let rest = values_for(pairs.drop_first(), name);
        if pairs[0].0 == Some(name) && pairs[0].1 is Some {
            seq![pairs[0].1->0] + rest
        } else {
            rest
        }
    }
}

/// The attribute value of the first element whose `name` attribute equals
/// `name` and which carries the looked-for value attribute.
pub fn first_attr_value(pairs: &Vec<(Option<String>, Option<String>)>, name: &str) -> (r: Option<
    String,
>)
    ensures
        r.deep_view() == first_value_for(pairs.deep_view(), name@),
{
    let ghost dv = pairs.deep_view();
    let name_string = String::from_str(name);
    let mut i: usize = 0;
    proof {
        assert(dv.skip(0) =~= dv);
    }
    while i < pairs.len()
        invariant
            i <= pairs.len(),
            dv == pairs.deep_view(),
            dv.len() == pairs.len(),
            name_string@ == name@,
            first_value_for(dv, name@) == first_value_for(dv.skip(i as int), name@),
        decreases pairs.len() - i,
    {
        let pair = &pairs[i];
        proof {
            assert(dv.skip(i as int)[0] == dv[i as int]);
            assert(dv.skip(i as int).drop_first() =~= dv.skip(i as int + 1));
        }
        let hit = match &pair.0 {
            Some(n) => *n == name_string,
            None => false,
        };
        if hit {
            match &pair.1 {
                Some(v) => {
                    return Some(v.clone());
                },
                None => {},
            }
        }
        i = i + 1;
    }
    proof {
        assert(dv.skip(i as int) =~= Seq::empty());
    }
    None
}

/// All values, in document order, of elements whose name attribute equals
/// `name` and which carry the looked-for value attribute.
pub fn attr_values(pairs: &Vec<(Option<String>, Option<String>)>, name: &str) -> (r: Vec<String>)
    ensures
        r.deep_view() == values_for(pairs.deep_view(), name@),
{
    let ghost dv = pairs.deep_view();
    let name_string = String::from_str(name);
    let mut out: Vec<String> = Vec::new();
    let mut i: usize = 0;
    proof {
        assert(dv.skip(0) =~= dv);
        assert(out.deep_view() + values_for(dv, name@) =~= values_for(dv, name@));
    }
    while i < pairs.len()
        invariant
            i <= pairs.len(),
            dv == pairs.deep_view(),
            dv.len() == pairs.len(),
            name_string@ == name@,
            values_for(dv, name@) == out.deep_view() + values_for(dv.skip(i as int), name@),
        decreases pairs.len() - i,
    {
        let pair = &pairs[i];
        let ghost prev = out.deep_view();
        proof {
            assert(dv.skip(i as int)[0] == dv[i as int]);
            assert(dv.skip(i as int).drop_first() =~= dv.skip(i as int + 1));
        }
        let hit = match &pair.0 {
            Some(n) => *n == name_string,
            None => false,
        };
        if hit {
            match &pair.1 {
                Some(v) => {
                    out.push(v.clone());
                    proof {
                        assert(out.deep_view() =~= prev.push(v@));
                        assert(prev + seq![v@] + values_for(dv.skip(i as int + 1), name@)
                            =~= out.deep_view() + values_for(dv.skip(i as int + 1), name@));
                    }
                },
                None => {},
            }
        }
        i = i + 1;
    }
    proof {
        assert(dv.skip(i as int) =~= Seq::empty());
        assert(out.deep_view() + Seq::<Seq<char>>::empty() =~= out.deep_view());
    }
    out
}

/// The candidate of one `rel` kind: the `href` of the first `link` element
/// with that `rel`, normalized against the base; `None` when no such element
/// exists or its normalization fails.
pub open spec fn rel_candidate(
    links: Seq<(Option<Seq<char>>, Option<Seq<char>>)>,
    rel: Seq<char>,
    base: Seq<char>,
) -> Option<Seq<char>> {
    match first_value_for(links, rel) {
        Some(href) => normalized_of(href, base),
        None => None,
    }
}

/// The icon candidate of the HTML link-tag scan: the `apple-touch-icon`
/// kind, then `icon`, then `shortcut icon`, first success wins.
pub open spec fn html_icon_candidate(
    links: Seq<(Option<Seq<char>>, Option<Seq<char>>)>,
    base: Seq<char>,
) -> Option<Seq<char>> {
    if rel_candidate(links, "apple-touch-icon"@, base) is Some {
        rel_candidate(links, "apple-touch-icon"@, base)
    } else if rel_candidate(links, "icon"@, base) is Some {
        rel_candidate(links, "icon"@, base)
    } else {
        rel_candidate(links, "shortcut icon"@, base)
    }
}

/// The Open Graph candidate: the `content` of the first `meta` element whose
/// `property` is `og:image`, normalized against the base.
pub open spec fn og_candidate_of(
    metas: Seq<(Option<Seq<char>>, Option<Seq<char>>)>,
    base: Seq<char>,
) -> Option<Seq<char>> {
    match first_value_for(metas, "og:image"@) {
        Some(content) => normalized_of(content, base),
        None => None,
    }
}

/// The manifest URLs of the link-tag scan: the `href` values of the
/// `rel="manifest"` elements that parse as URLs, normalized, in document
/// order.
pub open spec fn manifest_urls_of(
    links: Seq<(Option<Seq<char>>, Option<Seq<char>>)>,
) -> Seq<Seq<char>> {
    parsed_all(values_for(links, "manifest"@))
}

/// The members of `urls` that parse as URLs, each in normalized form, in
/// order.
pub open spec fn parsed_all(urls: Seq<Seq<char>>) -> Seq<Seq<char>>
    decreases urls.len(),
{
    if urls.len() == 0 {
        Seq::empty()
    } else {
        let rest = parsed_all(urls.drop_first());
        match url_norm_of(urls[0]) {
            Some(u) => seq![u] + rest,
            None => rest,
        }
    }
}

/// Candidate of one `rel` kind over scanned link pairs.
fn scan_rel_candidate(
    links: &Vec<(Option<String>, Option<String>)>,
    rel: &str,
    base: &str,
) -> (r: Option<String>)
    ensures
        r.deep_view() == rel_candidate(links.deep_view(), rel@, base@),
{
    match first_attr_value(links, rel) {
        Some(href) => normalize_link(href.as_str(), base),
        None => None,
    }
}

/// The icon candidate of the HTML link-tag scan, in the fixed `rel` priority
/// order.
pub fn scan_icon_candidate(links: &Vec<(Option<String>, Option<String>)>, base: &str) -> (r: Option<
    String,
>)
    ensures
        r.deep_view() == html_icon_candidate(links.deep_view(), base@),
{
    match scan_rel_candidate(links, "apple-touch-icon", base) {
        Some(c) => Some(c),
        None => match scan_rel_candidate(links, "icon", base) {
            Some(c) => Some(c),
            None => scan_rel_candidate(links, "shortcut icon", base),
        },
    }
}

/// The Open Graph image candidate over scanned meta pairs.
pub fn scan_og_candidate(metas: &Vec<(Option<String>, Option<String>)>, base: &str) -> (r: Option<
    String,
>)
    ensures
        r.deep_view() == og_candidate_of(metas.deep_view(), base@),
{
    match first_attr_value(metas, "og:image") {
        Some(content) => normalize_link(content.as_str(), base),
        None => None,
    }
}

/// The manifest URLs to try, in document order: each `rel="manifest"` href
/// that parses as a URL, normalized.
pub fn scan_manifest_urls(links: &Vec<(Option<String>, Option<String>)>) -> (r: Vec<String>)
    ensures
        r.deep_view() == manifest_urls_of(links.deep_view()),
{
    let hrefs = attr_values(links, "manifest");
    let ghost hv = hrefs.deep_view();
    let mut out: Vec<String> = Vec::new();
    let mut i: usize = 0;
    proof {
        assert(hv.skip(0) =~= hv);
        assert(out.deep_view() + parsed_all(hv) =~= parsed_all(hv));
    }
    while i < hrefs.len()
        invariant
            i <= hrefs.len(),
            hv == hrefs.deep_view(),
            hv.len() == hrefs.len(),
            parsed_all(hv) == out.deep_view() + parsed_all(hv.skip(i as int)),
        decreases hrefs.len() - i,
    {
        let ghost prev = out.deep_view();
        proof {
            assert(hv.skip(i as int)[0] == hv[i as int]);
            assert(hv.skip(i as int).drop_first() =~= hv.skip(i as int + 1));
        }
        match parse_url(hrefs[i].as_str()) {
            Some(u) => {
                let ghost uv = u@;
                out.push(u);
                proof {
                    assert(out.deep_view() =~= prev.push(uv));
                    assert(prev + seq![uv] + parsed_all(hv.skip(i as int + 1))
                        =~= out.deep_view() + parsed_all(hv.skip(i as int + 1)));
                }
            },
            None => {},
        }
        i = i + 1;
    }
    proof {
        assert(hv.skip(i as int) =~= Seq::empty());
        assert(out.deep_view() + Seq::<Seq<char>>::empty() =~= out.deep_view());
    }
    out
}

/// The link-tag scan prefers `apple-touch-icon` to every later kind: when an
/// `apple-touch-icon` candidate exists, it is the scan's result, whatever
/// `icon` or `shortcut icon` links the document also holds.
pub proof fn lemma_strategy_order(
    links: Seq<(Option<Seq<char>>, Option<Seq<char>>)>,
    base: Seq<char>,
)
    requires
        rel_candidate(links, "apple-touch-icon"@, base) is Some,
    ensures
        html_icon_candidate(links, base) == rel_candidate(links, "apple-touch-icon"@, base),
{
}

} // verus!
