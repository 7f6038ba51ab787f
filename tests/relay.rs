use ipfs_bot::config::Config;
use ipfs_bot::content::{extract_media, EncryptedFile, MediaContent, MessageContent};
use ipfs_bot::correlation::{find_cached, TimelineEvent};
use ipfs_bot::pipeline::{Action, Handler, Outcome, Settings, Stage};
use ipfs_bot::reference::{get_media_download_url, parse_media_reference, FormatError, Homeserver};
use ipfs_bot::reply::{link_body, unresolved_body, unsupported_body, ReplyRelation};
use ipfs_bot::staging::{fits_payload, StagingKeys};
use ipfs_bot::trigger::{contains, is_trigger};

fn homeserver() -> Homeserver {
    Homeserver { scheme: "https".to_string(), authority: "chat.example.com".to_string() }
}

fn settings() -> Settings {
    Settings {
        homeserver: homeserver(),
        gateway: "https://gw.example.net".to_string(),
        max_payload: 1000,
        max_attempts: 3,
    }
}

fn relation() -> ReplyRelation {
    ReplyRelation { in_reply_to: "$target".to_string() }
}

fn image(filename: &str, reference: &str) -> MessageContent {
    MessageContent::Image(MediaContent {
        body: filename.to_string(),
        url: Some(reference.to_string()),
        file: None,
    })
}

fn event(id: &str, content: MessageContent) -> TimelineEvent {
    TimelineEvent { event_id: id.to_string(), content }
}

fn reply_body(a: &Action) -> String {
    match a {
        Action::SendReply { reply } => {
            assert_eq!(reply.relates_to.in_reply_to, "$target");
            reply.body.clone()
        }
        _ => panic!("expected a reply"),
    }
}

#[test]
fn image_reply_links_stored_content() {
    let s = settings();
    let cache = vec![event("$other", MessageContent::Other), event("$target", image("cat.png", "ref://example.org/abc123"))];
    let (mut h, a) = Handler::start(&relation(), &cache, &s, 7);
    assert_eq!(h.fetches, 0);
    match &a {
        Action::Download { url } => {
            assert_eq!(url, "https://chat.example.com/_matrix/media/r0/download/example.org/abc123")
        }
        _ => panic!("expected a download"),
    }
    let a = h.step(Outcome::Downloaded(Some(12)), &s);
    assert!(matches!(a, Action::WriteStaged { key: 7 }));
    let a = h.step(Outcome::Written(true), &s);
    assert!(matches!(a, Action::Upload { key: 7 }));
    let a = h.step(Outcome::Uploaded(Some("bafy123".to_string())), &s);
    assert!(matches!(a, Action::RemoveStaged { key: 7 }));
    let a = h.step(Outcome::Removed, &s);
    match &a {
        Action::Pin { hash } => assert_eq!(hash, "bafy123"),
        _ => panic!("expected a pin"),
    }
    let a = h.step(Outcome::Pinned(true), &s);
    assert_eq!(reply_body(&a), "https://gw.example.net/ipfs/bafy123?filename=cat.png");
    let a = h.step(Outcome::Sent(true), &s);
    assert!(matches!(a, Action::Finish));
    assert_eq!(h.stage, Stage::Done);
}

#[test]
fn unresolved_event_gets_notice() {
    let s = settings();
    let (mut h, a) = Handler::start(&relation(), &vec![], &s, 1);
    match &a {
        Action::FetchEvent { event_id } => assert_eq!(event_id, "$target"),
        _ => panic!("expected a fetch"),
    }
    assert_eq!(h.fetches, 1);
    let a = h.step(Outcome::Fetched(None), &s);
    assert_eq!(reply_body(&a), "Unable to find related event!");
    assert_eq!(h.fetches, 1);
}

#[test]
fn text_event_gets_unsupported_notice() {
    let s = settings();
    let cache = vec![event("$target", MessageContent::Text("hello".to_string()))];
    let (h, a) = Handler::start(&relation(), &cache, &s, 1);
    assert_eq!(h.fetches, 0);
    assert_eq!(reply_body(&a), "Only Image, Video, File and Audio events are supported!");
}

#[test]
fn fetched_event_is_handled_without_second_fetch() {
    let s = settings();
    let (mut h, _) = Handler::start(&relation(), &vec![event("$x", MessageContent::Other)], &s, 2);
    let a = h.step(Outcome::Fetched(Some(event("$target", image("a.jpg", "mxc://m.org/id9")))), &s);
    match &a {
        Action::Download { url } => {
            assert_eq!(url, "https://chat.example.com/_matrix/media/r0/download/m.org/id9")
        }
        _ => panic!("expected a download"),
    }
    assert_eq!(h.fetches, 1);
    assert_eq!(h.filename, "a.jpg");
}

#[test]
fn pin_failure_still_replies_with_link() {
    let s = settings();
    let cache = vec![event("$target", image("cat.png", "ref://example.org/abc123"))];
    let (mut h, _) = Handler::start(&relation(), &cache, &s, 3);
    h.step(Outcome::Downloaded(Some(5)), &s);
    h.step(Outcome::Written(true), &s);
    h.step(Outcome::Uploaded(Some("bafy123".to_string())), &s);
    h.step(Outcome::Removed, &s);
    let a = h.step(Outcome::Pinned(false), &s);
    assert_eq!(reply_body(&a), "https://gw.example.net/ipfs/bafy123?filename=cat.png");
}

#[test]
fn upload_failure_removes_staged_file_and_ends() {
    let s = settings();
    let cache = vec![event("$target", image("cat.png", "ref://example.org/abc123"))];
    let (mut h, _) = Handler::start(&relation(), &cache, &s, 4);
    h.step(Outcome::Downloaded(Some(5)), &s);
    h.step(Outcome::Written(true), &s);
    let a = h.step(Outcome::Uploaded(None), &s);
    assert!(matches!(a, Action::RemoveStaged { key: 4 }));
    let a = h.step(Outcome::Removed, &s);
    assert!(matches!(a, Action::Finish));
}

#[test]
fn failed_write_removes_staged_file() {
    let s = settings();
    let cache = vec![event("$target", image("cat.png", "ref://example.org/abc123"))];
    let (mut h, _) = Handler::start(&relation(), &cache, &s, 4);
    h.step(Outcome::Downloaded(Some(5)), &s);
    let a = h.step(Outcome::Written(false), &s);
    assert!(matches!(a, Action::RemoveStaged { key: 4 }));
    assert!(matches!(h.step(Outcome::Removed, &s), Action::Finish));
}

#[test]
fn download_is_retried_up_to_the_limit() {
    let s = settings();
    let cache = vec![event("$target", image("cat.png", "ref://example.org/abc123"))];
    let (mut h, _) = Handler::start(&relation(), &cache, &s, 5);
    assert!(matches!(h.step(Outcome::Downloaded(None), &s), Action::Download { .. }));
    assert!(matches!(h.step(Outcome::Downloaded(None), &s), Action::Download { .. }));
    assert_eq!(h.attempts, 3);
    assert!(matches!(h.step(Outcome::Downloaded(None), &s), Action::Finish));
}

#[test]
fn oversize_payload_is_rejected_before_staging() {
    let s = settings();
    let cache = vec![event("$target", image("cat.png", "ref://example.org/abc123"))];
    let (mut h, _) = Handler::start(&relation(), &cache, &s, 5);
    assert!(matches!(h.step(Outcome::Downloaded(Some(1001)), &s), Action::Finish));
    assert!(fits_payload(1000, 1000));
    assert!(!fits_payload(1001, 1000));
}

#[test]
fn malformed_reference_asks_for_nothing() {
    let s = settings();
    let cache = vec![event("$target", image("cat.png", "ref:///abc123"))];
    let (h, a) = Handler::start(&relation(), &cache, &s, 5);
    assert!(matches!(a, Action::Finish));
    assert_eq!(h.stage, Stage::Done);
}

#[test]
fn cancel_removes_staged_file() {
    let s = settings();
    let cache = vec![event("$target", image("cat.png", "ref://example.org/abc123"))];
    let (mut h, _) = Handler::start(&relation(), &cache, &s, 6);
    h.step(Outcome::Downloaded(Some(5)), &s);
    assert!(matches!(h.cancel(), Action::RemoveStaged { key: 6 }));
    let (mut g, _) = Handler::start(&relation(), &vec![], &s, 8);
    assert!(matches!(g.cancel(), Action::Finish));
}

#[test]
fn reference_resolves_to_download_url() {
    let hs = Homeserver { scheme: "http".to_string(), authority: "localhost:8008".to_string() };
    assert_eq!(
        get_media_download_url("mxc://a.b/xyz", &hs).unwrap(),
        "http://localhost:8008/_matrix/media/r0/download/a.b/xyz"
    );
    let (o, id) = parse_media_reference("mxc://server/mid/dle/last").unwrap();
    assert_eq!(o, "server");
    assert_eq!(id, "last");
    let (o, id) = parse_media_reference("origin/id").unwrap();
    assert_eq!((o.as_str(), id.as_str()), ("origin", "id"));
}

#[test]
fn reference_errors() {
    let hs = homeserver();
    assert_eq!(get_media_download_url("mxc:///abc", &hs), Err(FormatError::MissingOrigin));
    assert_eq!(get_media_download_url("mxc://origin/", &hs), Err(FormatError::MissingMediaId));
    assert_eq!(get_media_download_url("mxc://origin", &hs), Err(FormatError::MissingMediaId));
    assert_eq!(get_media_download_url("", &hs), Err(FormatError::MissingMediaId));
}

#[test]
fn extractor_prefers_direct_reference() {
    let both = MessageContent::Video(MediaContent {
        body: "v.mp4".to_string(),
        url: Some("mxc://s/direct".to_string()),
        file: Some(EncryptedFile { url: "mxc://s/wrapped".to_string() }),
    });
    let d = extract_media(&both).unwrap();
    assert_eq!(d.reference, "mxc://s/direct");
    assert!(!d.encrypted);
    let wrapped = MessageContent::Audio(MediaContent {
        body: "a.ogg".to_string(),
        url: None,
        file: Some(EncryptedFile { url: "mxc://s/wrapped".to_string() }),
    });
    let d = extract_media(&wrapped).unwrap();
    assert_eq!(d.filename, "a.ogg");
    assert_eq!(d.reference, "mxc://s/wrapped");
    assert!(d.encrypted);
    let none = MessageContent::File(MediaContent { body: "f".to_string(), url: None, file: None });
    assert!(extract_media(&none).is_none());
    assert!(extract_media(&MessageContent::Other).is_none());
}

#[test]
fn cache_lookup_finds_first_match() {
    let cache = vec![event("$a", MessageContent::Other), event("$b", MessageContent::Other), event("$b", MessageContent::Other)];
    assert_eq!(find_cached(&cache, &"$b".to_string()), Some(1));
    assert_eq!(find_cached(&cache, &"$c".to_string()), None);
    assert_eq!(find_cached(&vec![], &"$c".to_string()), None);
}

#[test]
fn staging_keys_are_distinct_for_same_filename() {
    let mut keys = StagingKeys::new();
    let a = keys.allocate().unwrap();
    let b = keys.allocate().unwrap();
    assert_ne!(a, b);
    let s = settings();
    let cache = vec![event("$target", image("same.png", "ref://o/i"))];
    let (mut h1, _) = Handler::start(&relation(), &cache, &s, a);
    let (mut h2, _) = Handler::start(&relation(), &cache, &s, b);
    assert!(matches!(h1.step(Outcome::Downloaded(Some(1)), &s), Action::WriteStaged { key } if key == a));
    assert!(matches!(h2.step(Outcome::Downloaded(Some(1)), &s), Action::WriteStaged { key } if key == b));
}

#[test]
fn trigger_detection() {
    let rel = Some(relation());
    assert!(is_trigger("please !ipfs", &rel));
    assert!(!is_trigger("please !ipfs", &None));
    assert!(!is_trigger("!ipf", &rel));
    assert!(contains("abc", ""));
    assert!(!contains("", "a"));
}

#[test]
fn reply_bodies() {
    assert_eq!(link_body("g", "h", "f.png"), "g/ipfs/h?filename=f.png");
    assert_eq!(unresolved_body(), "Unable to find related event!");
    assert_eq!(unsupported_body(), "Only Image, Video, File and Audio events are supported!");
}

#[test]
fn config_gives_settings() {
    let c = Config { ipfs_gateway: "https://ipfs.io".to_string(), ipfs_api: "http://localhost:5001".to_string() };
    let s = c.settings(homeserver(), 10, 2);
    assert_eq!(s.gateway, "https://ipfs.io");
    assert_eq!(s.max_attempts, 2);
}
