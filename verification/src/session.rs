//! The per-request state machine: reachability gate, ordered discovery
//! chain, then the fetch-and-rescale pipeline. Each step consumes the
//! result of the previous network operation and decides the next one; the
//! caller performs the operations and feeds the results back.

use vstd::prelude::*;
use crate::html::{
    html_icon_candidate, link_tags, links_of, manifest_urls_of, meta_tags, metas_of,
    og_candidate_of, scan_icon_candidate, scan_manifest_urls, scan_og_candidate,
};
use crate::manifest::{manifest_candidate, manifest_candidate_of};
use crate::outcome::{is_success_status, spec_is_success, IconError};
use crate::scale::{scale_fetched, scaled_png_of};
use crate::urls::{join_url, url_join_of, TargetSite};

verus! {

/// The fallback lookup service's URL for a site: the fixed endpoint,
/// parameterized with the site's URL and a fixed size hint.
pub open spec fn fallback_url_of(site: Seq<char>) -> Seq<char> {
    "https://t3.gstatic.com/faviconV2?client=SOCIAL&type=FAVICON&fallback_opts=TYPE,SIZE,URL&url="@
        + site + "&size=128"@
}

/// Build the fallback lookup service's URL for a site.
pub fn fallback_url(site: &str) -> (r: String)
    ensures
        r@ == fallback_url_of(site@),
{
    let mut out = String::from_str(
        "https://t3.gstatic.com/faviconV2?client=SOCIAL&type=FAVICON&fallback_opts=TYPE,SIZE,URL&url=",
    );
    out.append(site);
    out.append("&size=128");
    out
}

/// A one-element sequence for `Some`, an empty one for `None`.
pub open spec fn opt_to_seq(o: Option<Seq<char>>) -> Seq<Seq<char>> {
    match o {
        Some(x) => seq![x],
        None => Seq::empty(),
    }
}

/// The well-known URLs to probe for a site, in the literal order
/// `favicon.ico`, `favicon.png`, `apple-touch-icon.png`; a path whose join
/// against the base fails is left out.
pub open spec fn probe_urls_of(site: Seq<char>) -> Seq<Seq<char>> {
    opt_to_seq(url_join_of(site, "favicon.ico"@)) + opt_to_seq(url_join_of(site, "favicon.png"@))
        + opt_to_seq(url_join_of(site, "apple-touch-icon.png"@))
}

/// Append the member of `o`, if any, to `v`.
fn push_opt(v: &mut Vec<String>, o: Option<String>)
    ensures
        final(v).deep_view() == old(v).deep_view() + opt_to_seq(o.deep_view()),
{
    let ghost pre = v.deep_view();
    match o {
        Some(u) => {
            let ghost uv = u@;
            v.push(u);
            proof {
                assert(v.deep_view() =~= pre + opt_to_seq(Some(uv)));
            }
        },
        None => {
            proof {
                assert(v.deep_view() =~= pre + opt_to_seq(None));
            }
        },
    }
}

/// The well-known URLs to probe for a site, in their fixed order.
pub fn probe_urls(site: &str) -> (r: Vec<String>)
    ensures
        r.deep_view() == probe_urls_of(site@),
{
    let mut out: Vec<String> = Vec::new();
    push_opt(&mut out, join_url(site, "favicon.ico"));
    push_opt(&mut out, join_url(site, "favicon.png"));
    push_opt(&mut out, join_url(site, "apple-touch-icon.png"));
    proof {
        assert(out.deep_view() =~= probe_urls_of(site@));
    }
    out
}

/// A fetched response for the resolved candidate: the observed status and
/// the body bytes.
#[derive(Debug, Clone, PartialEq, Eq)]
pub struct FetchedBody {
    pub status: u16,
    pub body: Vec<u8>,
}

/// What the caller observed for the operation the session last asked for.
#[derive(Debug, Clone, PartialEq, Eq)]
pub enum Event {
    /// Status of the reachability request; `None` for a transport failure.
    SiteStatus { status: Option<u16> },
    /// Body text of the site's root document; `None` for a transport
    /// failure.
    RootDocument { text: Option<String> },
    /// Body text of the manifest last asked for; `None` for a transport
    /// failure.
    ManifestDocument { text: Option<String> },
    /// Status of the existence probe last asked for; `None` for a transport
    /// failure.
    Probed { status: Option<u16> },
    /// Response for the resolved candidate; `None` for a transport failure.
    IconResponse { response: Option<FetchedBody> },
}

/// The next operation the caller is to perform, or the final outcome.
#[derive(Debug, PartialEq, Eq)]
pub enum Action {
    /// Issue a GET against the site and answer with `SiteStatus`.
    CheckSite { url: String },
    /// Fetch the site's root document as text and answer with
    /// `RootDocument`.
    FetchRoot { url: String },
    /// Fetch a manifest as text and answer with `ManifestDocument`.
    FetchManifest { url: String },
    /// Issue a HEAD-style existence check and answer with `Probed`.
    ProbeUrl { url: String },
    /// Fetch the resolved candidate's bytes and answer with `IconResponse`.
    FetchIcon { url: String },
    /// The request is over: the encoded icon, or a typed outcome.
    Finish { outcome: Result<Vec<u8>, IconError> },
}

/// Where a session stands: which answer it waits for, and what discovery
/// work is still ahead of it.
#[derive(Debug, Clone, PartialEq, Eq)]
pub enum Phase {
    /// Awaiting the reachability answer.
    CheckingSite,
    /// Awaiting the root document.
    AwaitingHtml,
    /// Awaiting a manifest body; `rest` holds the manifest URLs not yet
    /// tried, then the probes and the Open Graph candidate.
    AwaitingManifest { rest: Vec<String>, probes: Vec<String>, og: Option<String> },
    /// Awaiting the probe of `current`; `rest` holds the probes not yet
    /// tried.
    AwaitingProbe { current: String, rest: Vec<String>, og: Option<String> },
    /// Awaiting the probe of the fallback service's URL.
    AwaitingFallback { url: String },
    /// Awaiting the resolved candidate's bytes.
    AwaitingIcon,
    /// The request is over.
    Finished,
}

/// One request's state: the validated site, the requested size, and the
/// phase.
#[derive(Debug, Clone)]
pub struct Session {
    pub site: TargetSite,
    pub size: u32,
    pub phase: Phase,
}

/// How discovery goes on when no candidate has been found yet: the next
/// pending manifest is fetched; with none left, the next well-known path is
/// probed; with none left, the Open Graph candidate is fetched; with none,
/// the fallback service is probed.
pub open spec fn continues_discovery(
    site: Seq<char>,
    pending: Seq<Seq<char>>,
    probes: Seq<Seq<char>>,
    og: Option<Seq<char>>,
    phase: Phase,
    action: Action,
) -> bool {
    if pending.len() > 0 {
        &&& action matches Action::FetchManifest { url } && url@ == pending[0]
        &&& phase matches Phase::AwaitingManifest { rest, probes: pr, og: o }
            && rest.deep_view() == pending.drop_first() && pr.deep_view() == probes
            && o.deep_view() == og
    } else if probes.len() > 0 {
        &&& action matches Action::ProbeUrl { url } && url@ == probes[0]
        &&& phase matches Phase::AwaitingProbe { current, rest, og: o } && current@ == probes[0]
            && rest.deep_view() == probes.drop_first() && o.deep_view() == og
    } else {
        match og {
            Some(c) => {
                &&& action matches Action::FetchIcon { url } && url@ == c
                &&& phase is AwaitingIcon
            },
            None => {
                &&& action matches Action::ProbeUrl { url } && url@ == fallback_url_of(site)
                &&& phase matches Phase::AwaitingFallback { url } && url@ == fallback_url_of(site)
            },
        }
    }
}

/// Resume discovery from the recorded pending work.
fn continue_discovery(
    site: &TargetSite,
    pending: Vec<String>,
    probes: Vec<String>,
    og: Option<String>,
) -> (r: (Phase, Action))
    ensures
        continues_discovery(
            site.url@,
            pending.deep_view(),
            probes.deep_view(),
            og.deep_view(),
            r.0,
            r.1,
        ),
{
    let mut pending = pending;
    let mut probes = probes;
    if pending.len() > 0 {
        let ghost pv = pending@;
        let ghost pdv = pending.deep_view();
        let url = pending.remove(0);
        proof {
            assert forall|j: int| 0 <= j < pending.deep_view().len() implies pending.deep_view()[j]
                == pdv.drop_first()[j] by {
                assert(pending@[j] == pv[j + 1]);
            }
            assert(pending.deep_view() =~= pdv.drop_first());
        }
        (
            Phase::AwaitingManifest { rest: pending, probes, og },
            Action::FetchManifest { url },
        )
    } else if probes.len() > 0 {
        let ghost qv = probes@;
        let ghost qdv = probes.deep_view();
        let url = probes.remove(0);
        let current = url.clone();
        proof {
            assert forall|j: int| 0 <= j < probes.deep_view().len() implies probes.deep_view()[j]
                == qdv.drop_first()[j] by {
                assert(probes@[j] == qv[j + 1]);
            }
            assert(probes.deep_view() =~= qdv.drop_first());
        }
        (
            Phase::AwaitingProbe { current, rest: probes, og },
            Action::ProbeUrl { url },
        )
    } else {
        match og {
            Some(c) => (Phase::AwaitingIcon, Action::FetchIcon { url: c }),
            None => {
                let url = fallback_url(site.url.as_str());
                let stored = url.clone();
                (Phase::AwaitingFallback { url: stored }, Action::ProbeUrl { url })
            },
        }
    }
}

/// The session ends with the typed outcome `e`.
pub open spec fn finishes_err(post: Session, action: Action, e: IconError) -> bool {
    &&& post.phase is Finished
    &&& action == Action::Finish { outcome: Err::<Vec<u8>, IconError>(e) }
}

/// The session ends with the encoded icon `png`.
pub open spec fn finishes_icon(post: Session, action: Action, png: Seq<u8>) -> bool {
    &&& post.phase is Finished
    &&& action matches Action::Finish { outcome: Ok(v) } && v@ == png
}

impl Session {
    /// The site is validated and the requested size positive.
    pub open spec fn wf(&self) -> bool {
        self.site.wf() && 1 <= self.size
    }

    /// Which answer the session waits for.
    pub open spec fn expects(self, event: Event) -> bool {
        match self.phase {
            Phase::CheckingSite => event is SiteStatus,
            Phase::AwaitingHtml => event is RootDocument,
            Phase::AwaitingManifest { .. } => event is ManifestDocument,
            Phase::AwaitingProbe { .. } => event is Probed,
            Phase::AwaitingFallback { .. } => event is Probed,
            Phase::AwaitingIcon => event is IconResponse,
            Phase::Finished => false,
        }
    }

    /// Whether `event` answers what the session last asked for.
    pub fn accepts(&self, event: &Event) -> (r: bool)
        ensures
            r == self.expects(*event),
    {
        match (&self.phase, event) {
            (Phase::CheckingSite, Event::SiteStatus { .. }) => true,
            (Phase::AwaitingHtml, Event::RootDocument { .. }) => true,
            (Phase::AwaitingManifest { .. }, Event::ManifestDocument { .. }) => true,
            (Phase::AwaitingProbe { .. }, Event::Probed { .. }) => true,
            (Phase::AwaitingFallback { .. }, Event::Probed { .. }) => true,
            (Phase::AwaitingIcon, Event::IconResponse { .. }) => true,
            _ => false,
        }
    }

    /// Start a request: the first operation is the reachability check
    /// against the site itself, before any discovery work.
    pub fn new(site: TargetSite, size: u32) -> (r: (Session, Action))
        requires
            site.wf(),
            1 <= size,
        ensures
            r.0.wf(),
            r.0.site == site,
            r.0.size == size,
            r.0.phase is CheckingSite,
            r.1 matches Action::CheckSite { url } && url@ == site.url@,
    {
        let url = site.url.clone();
        (Session { site, size, phase: Phase::CheckingSite }, Action::CheckSite { url })
    }

    /// Feed the result of the last operation in and get the next one. The
    /// whole decision logic of a request lives here; `step_rel` states it
    /// case by case.
    pub fn step(self, event: Event) -> (r: (Session, Action))
        requires
            self.wf(),
            self.expects(event),
        ensures
            r.0.wf(),
            r.0.site == self.site,
            r.0.size == self.size,
            step_rel(self, event, r.0, r.1),
    {
        let Session { site, size, phase } = self;
        match (phase, event) {
            (Phase::CheckingSite, Event::SiteStatus { status }) => {
                let up = match status {
                    Some(s) => is_success_status(s),
                    None => false,
                };
                if up {
                    let url = site.url.clone();
                    (Session { site, size, phase: Phase::AwaitingHtml }, Action::FetchRoot { url })
                } else {
                    (
                        Session { site, size, phase: Phase::Finished },
                        Action::Finish { outcome: Err(IconError::TargetUnreachable) },
                    )
                }
            },
            (Phase::AwaitingHtml, Event::RootDocument { text }) => match text {
                Some(html) => {
                    let links = link_tags(html.as_str());
                    match scan_icon_candidate(&links, site.url.as_str()) {
                        Some(c) => (
                            Session { site, size, phase: Phase::AwaitingIcon },
                            Action::FetchIcon { url: c },
                        ),
                        None => {
                            let metas = meta_tags(html.as_str());
                            let og = scan_og_candidate(&metas, site.url.as_str());
                            let pending = scan_manifest_urls(&links);
                            let probes = probe_urls(site.url.as_str());
                            let (next, action) = continue_discovery(&site, pending, probes, og);
                            (Session { site, size, phase: next }, action)
                        },
                    }
                },
                None => (
                    Session { site, size, phase: Phase::Finished },
                    Action::Finish { outcome: Err(IconError::DiscoveryFetchFailed) },
                ),
            },
            (Phase::AwaitingManifest { rest, probes, og }, Event::ManifestDocument { text }) => {
                let cand = match &text {
                    Some(t) => manifest_candidate(t.as_str(), site.url.as_str()),
                    None => None,
                };
                match cand {
                    Some(c) => (
                        Session { site, size, phase: Phase::AwaitingIcon },
                        Action::FetchIcon { url: c },
                    ),
                    None => {
                        let (next, action) = continue_discovery(&site, rest, probes, og);
                        (Session { site, size, phase: next }, action)
                    },
                }
            },
            (Phase::AwaitingProbe { current, rest, og }, Event::Probed { status }) => {
                let hit = match status {
                    Some(s) => s == 200,
                    None => false,
                };
                if hit {
                    (
                        Session { site, size, phase: Phase::AwaitingIcon },
                        Action::FetchIcon { url: current },
                    )
                } else {
                    let none_pending: Vec<String> = Vec::new();
                    proof {
                        assert(none_pending.deep_view() =~= Seq::<Seq<char>>::empty());
                    }
                    let (next, action) = continue_discovery(&site, none_pending, rest, og);
                    (Session { site, size, phase: next }, action)
                }
            },
            (Phase::AwaitingFallback { url }, Event::Probed { status }) => {
                let hit = match status {
                    Some(s) => s == 200,
                    None => false,
                };
                if hit {
                    (
                        Session { site, size, phase: Phase::AwaitingIcon },
                        Action::FetchIcon { url },
                    )
                } else {
                    (
                        Session { site, size, phase: Phase::Finished },
                        Action::Finish { outcome: Err(IconError::NoIconFound) },
                    )
                }
            },
            (Phase::AwaitingIcon, Event::IconResponse { response }) => match response {
                Some(fetched) => {
                    let FetchedBody { status, body } = fetched;
                    let outcome = scale_fetched(status, body.as_slice(), size);
                    (Session { site, size, phase: Phase::Finished }, Action::Finish { outcome })
                },
                None => (
                    Session { site, size, phase: Phase::Finished },
                    Action::Finish {
                        outcome: Err(IconError::IconFetchFailed { status: None }),
                    },
                ),
            },
            // Every remaining phase and event pairing contradicts the
            // `expects` precondition.
            (other_phase, _) => {
                proof {
                    assert(false);
                }
                (
                    Session { site, size, phase: other_phase },
                    Action::Finish { outcome: Err(IconError::NoIconFound) },
                )
            },
        }
    }
}

/// The transition relation of `Session::step`: for each phase and the
/// answer it waits for, the next phase and the operation asked of the
/// caller.
pub open spec fn step_rel(pre: Session, event: Event, post: Session, action: Action) -> bool {
    let site = pre.site.url@;
    match (pre.phase, event) {
        (Phase::CheckingSite, Event::SiteStatus { status }) => match status {
            // A non-2xx status or a transport failure ends the request
            // before any discovery work begins.
            Some(s) => if spec_is_success(s) {
                &&& post.phase is AwaitingHtml
                &&& action matches Action::FetchRoot { url } && url@ == site
            } else {
                finishes_err(post, action, IconError::TargetUnreachable)
            },
            None => finishes_err(post, action, IconError::TargetUnreachable),
        },
        (Phase::AwaitingHtml, Event::RootDocument { text }) => match text {
            Some(html) => {
                let links = links_of(html@);
                match html_icon_candidate(links, site) {
                    Some(c) => {
                        &&& post.phase is AwaitingIcon
                        &&& action matches Action::FetchIcon { url } && url@ == c
                    },
                    None => continues_discovery(
                        site,
                        manifest_urls_of(links),
                        probe_urls_of(site),
                        og_candidate_of(metas_of(html@), site),
                        post.phase,
                        action,
                    ),
                }
            },
            None => finishes_err(post, action, IconError::DiscoveryFetchFailed),
        },
        (Phase::AwaitingManifest { rest, probes, og }, Event::ManifestDocument { text }) => {
            let cand = match text {
                Some(t) => manifest_candidate_of(t@, site),
                None => None,
            };
            match cand {
                Some(c) => {
                    &&& post.phase is AwaitingIcon
                    &&& action matches Action::FetchIcon { url } && url@ == c
                },
                None => continues_discovery(
                    site,
                    rest.deep_view(),
                    probes.deep_view(),
                    og.deep_view(),
                    post.phase,
                    action,
                ),
            }
        },
        (Phase::AwaitingProbe { current, rest, og }, Event::Probed { status }) => {
            // Exactly status 200 selects the probed URL; anything else,
            // redirects included, means "does not exist" here.
            if status == Some(200u16) {
                &&& post.phase is AwaitingIcon
                &&& action matches Action::FetchIcon { url } && url@ == current@
            } else {
                continues_discovery(
                    site,
                    Seq::empty(),
                    rest.deep_view(),
                    og.deep_view(),
                    post.phase,
                    action,
                )
            }
        },
        (Phase::AwaitingFallback { url: fallback }, Event::Probed { status }) => {
            if status == Some(200u16) {
                &&& post.phase is AwaitingIcon
                &&& action matches Action::FetchIcon { url } && url@ == fallback@
            } else {
                finishes_err(post, action, IconError::NoIconFound)
            }
        },
        (Phase::AwaitingIcon, Event::IconResponse { response }) => match response {
            Some(fetched) => if !spec_is_success(fetched.status) {
                finishes_err(
                    post,
                    action,
                    IconError::IconFetchFailed { status: Some(fetched.status) },
                )
            } else {
                match scaled_png_of(fetched.body@, pre.size) {
                    Some(png) => finishes_icon(post, action, png),
                    None => finishes_err(post, action, IconError::IconDecodeFailed),
                }
            },
            None => finishes_err(post, action, IconError::IconFetchFailed { status: None }),
        },
        _ => false,
    }
}

/// A session that has finished accepts no further event: once the request
/// is over, and in particular once the reachability gate has failed, no
/// discovery or fetch step can follow.
pub proof fn lemma_finished_is_terminal(s: Session, event: Event)
    requires
        s.phase is Finished,
    ensures
        !s.expects(event),
{
}

/// A resolution produces at most one icon candidate: once a candidate's
/// bytes are awaited, the step that answers ends the request, whatever the
/// answer holds; discovery never resumes.
pub proof fn lemma_candidate_is_final(pre: Session, event: Event, post: Session, action: Action)
    requires
        pre.phase is AwaitingIcon,
        pre.expects(event),
        step_rel(pre, event, post, action),
    ensures
        post.phase is Finished,
        action is Finish,
{
}

/// A manifest that yields no candidate never ends the chain: with no
/// manifest left to try, the next step is the probe of the first well-known
/// path.
pub proof fn lemma_manifest_miss_probes_next(
    pre: Session,
    text: String,
    post: Session,
    action: Action,
)
    requires
        pre.phase matches Phase::AwaitingManifest { rest, probes, og } && rest@.len() == 0
            && probes@.len() > 0,
        manifest_candidate_of(text@, pre.site.url@) is None,
        step_rel(pre, Event::ManifestDocument { text: Some(text) }, post, action),
    ensures
        pre.phase matches Phase::AwaitingManifest { rest, probes, og } ==> {
            &&& action matches Action::ProbeUrl { url } && url@ == probes.deep_view()[0]
            &&& !(post.phase is Finished)
        },
{
}

} // verus!
