//! End-to-end drives of the resolution state machine with synthetic fetch
//! results.

use favicon_resolver::outcome::IconError;
use favicon_resolver::session::{Action, Event, FetchedBody, Session};
use favicon_resolver::urls::TargetSite;

const BASE: &str = "https://example.com";

fn new_session() -> (Session, Action) {
    let site = TargetSite::new(BASE).expect("base URL must validate");
    Session::new(site, 32)
}

/// Drive a fresh session through the reachability gate and the root
/// document fetch, returning the first discovery action.
fn start_with_html(html: &str) -> (Session, Action) {
    let (session, action) = new_session();
    assert_eq!(action, Action::CheckSite { url: BASE.to_string() });
    let (session, action) = session.step(Event::SiteStatus { status: Some(200) });
    assert_eq!(action, Action::FetchRoot { url: BASE.to_string() });
    session.step(Event::RootDocument { text: Some(html.to_string()) })
}

fn expect_fetch_icon(action: &Action) -> String {
    match action {
        Action::FetchIcon { url } => url.clone(),
        other => panic!("expected FetchIcon, got {:?}", other),
    }
}

#[test]
fn unreachable_status_stops_resolution() {
    let (_, action) = {
        let (session, _) = new_session();
        session.step(Event::SiteStatus { status: Some(404) })
    };
    assert_eq!(
        action,
        Action::Finish { outcome: Err(IconError::TargetUnreachable) }
    );
}

#[test]
fn transport_failure_stops_resolution() {
    let (session, _) = new_session();
    let (_, action) = session.step(Event::SiteStatus { status: None });
    assert_eq!(
        action,
        Action::Finish { outcome: Err(IconError::TargetUnreachable) }
    );
}

#[test]
fn root_fetch_failure_is_fatal() {
    let (session, _) = new_session();
    let (session, _) = session.step(Event::SiteStatus { status: Some(204) });
    let (_, action) = session.step(Event::RootDocument { text: None });
    assert_eq!(
        action,
        Action::Finish { outcome: Err(IconError::DiscoveryFetchFailed) }
    );
}

#[test]
fn apple_touch_icon_wins_over_shortcut_icon() {
    let html = "<html><head>\
        <link rel=\"shortcut icon\" href=\"/shortcut.ico\">\
        <link rel=\"apple-touch-icon\" href=\"/apple.png\">\
        </head><body></body></html>";
    let (_, action) = start_with_html(html);
    assert_eq!(expect_fetch_icon(&action), "https://example.com/apple.png");
}

#[test]
fn relative_icon_href_is_joined_to_base() {
    let html = "<html><head><link rel=\"icon\" href=\"/static/icon.png\"></head></html>";
    let (_, action) = start_with_html(html);
    assert_eq!(
        expect_fetch_icon(&action),
        "https://example.com/static/icon.png"
    );
}

#[test]
fn absolute_icon_href_is_kept_verbatim() {
    let html = "<html><head><link rel=\"icon\" href=\"https://cdn.example.net/i.png\"></head></html>";
    let (_, action) = start_with_html(html);
    assert_eq!(expect_fetch_icon(&action), "https://cdn.example.net/i.png");
}

#[test]
fn manifest_without_icons_continues_to_probes() {
    let html = "<html><head>\
        <link rel=\"manifest\" href=\"https://example.com/app.webmanifest\">\
        </head></html>";
    let (session, action) = start_with_html(html);
    assert_eq!(
        action,
        Action::FetchManifest { url: "https://example.com/app.webmanifest".to_string() }
    );
    let manifest = "{\"name\":\"no icons here\"}";
    let (_, action) = session.step(Event::ManifestDocument { text: Some(manifest.to_string()) });
    assert_eq!(
        action,
        Action::ProbeUrl { url: "https://example.com/favicon.ico".to_string() }
    );
}

#[test]
fn manifest_first_icon_src_is_resolved() {
    let html = "<html><head>\
        <link rel=\"manifest\" href=\"https://example.com/app.webmanifest\">\
        </head></html>";
    let (session, _) = start_with_html(html);
    let manifest = "{\"icons\":[{\"src\":\"/icon-192.png\",\"sizes\":\"192x192\"}]}";
    let (_, action) = session.step(Event::ManifestDocument { text: Some(manifest.to_string()) });
    assert_eq!(expect_fetch_icon(&action), "https://example.com/icon-192.png");
}

#[test]
fn relative_manifest_href_is_skipped() {
    let html = "<html><head><link rel=\"manifest\" href=\"/app.webmanifest\"></head></html>";
    let (_, action) = start_with_html(html);
    assert_eq!(
        action,
        Action::ProbeUrl { url: "https://example.com/favicon.ico".to_string() }
    );
}

#[test]
fn well_known_paths_probe_in_order_and_first_200_wins() {
    let html = "<html><head></head><body>no icons</body></html>";
    let (session, action) = start_with_html(html);
    assert_eq!(
        action,
        Action::ProbeUrl { url: "https://example.com/favicon.ico".to_string() }
    );
    let (session, action) = session.step(Event::Probed { status: Some(404) });
    assert_eq!(
        action,
        Action::ProbeUrl { url: "https://example.com/favicon.png".to_string() }
    );
    let (_, action) = session.step(Event::Probed { status: Some(200) });
    assert_eq!(
        expect_fetch_icon(&action),
        "https://example.com/favicon.png"
    );
}

#[test]
fn probe_redirect_is_not_selected() {
    let html = "<html><head></head></html>";
    let (session, _) = start_with_html(html);
    let (_, action) = session.step(Event::Probed { status: Some(301) });
    assert_eq!(
        action,
        Action::ProbeUrl { url: "https://example.com/favicon.png".to_string() }
    );
}

#[test]
fn og_image_is_used_after_probes_fail() {
    let html = "<html><head>\
        <meta property=\"og:image\" content=\"/og-cover.png\">\
        </head></html>";
    let (session, action) = start_with_html(html);
    assert_eq!(
        action,
        Action::ProbeUrl { url: "https://example.com/favicon.ico".to_string() }
    );
    let (session, _) = session.step(Event::Probed { status: Some(404) });
    let (session, _) = session.step(Event::Probed { status: None });
    let (_, action) = session.step(Event::Probed { status: Some(500) });
    assert_eq!(expect_fetch_icon(&action), "https://example.com/og-cover.png");
}

#[test]
fn exhausted_chain_reports_no_icon_found() {
    let html = "<html><head><title>bare</title></head></html>";
    let (session, _) = start_with_html(html);
    let (session, _) = session.step(Event::Probed { status: Some(404) });
    let (session, _) = session.step(Event::Probed { status: Some(404) });
    let (session, action) = session.step(Event::Probed { status: Some(404) });
    assert_eq!(
        action,
        Action::ProbeUrl {
            url: "https://t3.gstatic.com/faviconV2?client=SOCIAL&type=FAVICON&fallback_opts=TYPE,SIZE,URL&url=https://example.com&size=128"
                .to_string(),
        }
    );
    let (_, action) = session.step(Event::Probed { status: Some(404) });
    assert_eq!(action, Action::Finish { outcome: Err(IconError::NoIconFound) });
}

#[test]
fn fallback_service_hit_is_last_resort() {
    let html = "<html><head></head></html>";
    let (session, _) = start_with_html(html);
    let (session, _) = session.step(Event::Probed { status: Some(404) });
    let (session, _) = session.step(Event::Probed { status: Some(404) });
    let (session, _) = session.step(Event::Probed { status: Some(404) });
    let (_, action) = session.step(Event::Probed { status: Some(200) });
    assert_eq!(
        expect_fetch_icon(&action),
        "https://t3.gstatic.com/faviconV2?client=SOCIAL&type=FAVICON&fallback_opts=TYPE,SIZE,URL&url=https://example.com&size=128"
    );
}

#[test]
fn candidate_404_reports_icon_fetch_failed_without_decoding() {
    let html = "<html><head><link rel=\"icon\" href=\"/icon.png\"></head></html>";
    let (session, action) = start_with_html(html);
    expect_fetch_icon(&action);
    // A perfectly decodable body: the status alone must decide.
    let img = image::DynamicImage::ImageRgba8(image::RgbaImage::new(8, 8));
    let mut cursor = std::io::Cursor::new(Vec::new());
    img.write_to(&mut cursor, image::ImageOutputFormat::Png).unwrap();
    let (_, action) = session.step(Event::IconResponse {
        response: Some(FetchedBody { status: 404, body: cursor.into_inner() }),
    });
    assert_eq!(
        action,
        Action::Finish {
            outcome: Err(IconError::IconFetchFailed { status: Some(404) }),
        }
    );
}

#[test]
fn candidate_transport_failure_reports_icon_fetch_failed() {
    let html = "<html><head><link rel=\"icon\" href=\"/icon.png\"></head></html>";
    let (session, _) = start_with_html(html);
    let (_, action) = session.step(Event::IconResponse { response: None });
    assert_eq!(
        action,
        Action::Finish {
            outcome: Err(IconError::IconFetchFailed { status: None }),
        }
    );
}

#[test]
fn undecodable_candidate_reports_decode_failed() {
    let html = "<html><head><link rel=\"icon\" href=\"/icon.png\"></head></html>";
    let (session, _) = start_with_html(html);
    let (_, action) = session.step(Event::IconResponse {
        response: Some(FetchedBody { status: 200, body: b"this is not an image".to_vec() }),
    });
    assert_eq!(
        action,
        Action::Finish { outcome: Err(IconError::IconDecodeFailed) }
    );
}

#[test]
fn resolved_icon_is_rescaled_end_to_end() {
    let html = "<html><head><link rel=\"icon\" href=\"/icon.png\"></head></html>";
    let (session, _) = start_with_html(html);
    let img = image::DynamicImage::ImageRgba8(image::RgbaImage::new(256, 256));
    let mut cursor = std::io::Cursor::new(Vec::new());
    img.write_to(&mut cursor, image::ImageOutputFormat::Png).unwrap();
    let (_, action) = session.step(Event::IconResponse {
        response: Some(FetchedBody { status: 200, body: cursor.into_inner() }),
    });
    let out = match action {
        Action::Finish { outcome: Ok(bytes) } => bytes,
        other => panic!("expected a finished icon, got {:?}", other),
    };
    assert_eq!(image::guess_format(&out).unwrap(), image::ImageFormat::Png);
    let decoded = image::load_from_memory(&out).unwrap();
    assert_eq!(decoded.width(), 32);
    assert_eq!(decoded.height(), 32);
}

#[test]
fn mismatched_event_is_rejected_by_accepts() {
    let (session, _) = new_session();
    assert!(session.accepts(&Event::SiteStatus { status: Some(200) }));
    assert!(!session.accepts(&Event::Probed { status: Some(200) }));
}
