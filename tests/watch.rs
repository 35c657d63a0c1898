use dominion::config::WatchEntry;
use dominion::duration::Duration;
use dominion::error::DominionRequestError;
use dominion::event::NotificationEvent;
use dominion::schedule::{initial_delay, next_delay};
use dominion::watch::{hash, HttpResponse, Watcher};

fn entry(url: &str, ignore: Vec<String>) -> WatchEntry {
    WatchEntry {
        url: url.to_string(),
        ignore,
        ..WatchEntry::default()
    }
}

fn ok(status: u16, body: &str) -> HttpResponse {
    HttpResponse {
        status,
        content_type: Some("text/plain; charset=utf-8".to_string()),
        body: body.to_string(),
    }
}

#[test]
fn mask() {
    let ignore_patterns = vec![
        "foo".to_string(),
        "bar".to_string(),
        r#""eventDate": "\d{4}-\d{2}-\d{2}T\d{2}:\d{2}:\d{2}.\d{3}Z""#.to_string(),
    ];
    let entry = WatchEntry {
        ignore: ignore_patterns,
        ..WatchEntry::default()
    };
    let watcher = Watcher::new(&entry).unwrap();

    let value = r#"{
	"key": "value",
	"foo": "bar",
	"foo": "bar",
	"key2": "bar",
	"eventDate": "2023-06-25T23:59:59.999Z",
	"eventDate": "2023-06-25T23:59:59.999Z",
	"eventDate": "0000-00-00T00:00:00.000Z",
	"eventDate": "0000-00-00T00:00:00.0000Z",
	"eventDate": "aaaa-aa-aaTaa:aa:aa.aaaZ",
	"foo1": "bar1"
}"#
    .to_string();

    let expected = r#"{
	"key": "value",
	"__ignored__": "__ignored__",
	"__ignored__": "__ignored__",
	"key2": "__ignored__",
	__ignored__,
	__ignored__,
	__ignored__,
	"eventDate": "0000-00-00T00:00:00.0000Z",
	"eventDate": "aaaa-aa-aaTaa:aa:aa.aaaZ",
	"__ignored__1": "__ignored__1"
}"#
    .to_string();

    assert_eq!(watcher.mask_value(value), expected);
}

#[test]
fn identical_then_changed_content() {
    let mut e = entry("https://a.example", vec![]);
    e.interval = Duration::from_secs(10);
    e.variation_ppm = 0;
    e.stagger = Duration::from_secs(0);
    let mut w = Watcher::new(&e).unwrap();

    assert_eq!(initial_delay(&e.stagger, 123_456), Duration::from_secs(0));
    assert_eq!(next_delay(&e.interval, e.variation_ppm, u32::MAX), Duration::from_secs(10));

    assert_eq!(w.watch(Ok("A".to_string())), None);
    assert_eq!(
        w.watch(Ok("A".to_string())),
        Some(NotificationEvent::NoChanges { url: "https://a.example".to_string() })
    );
    assert_eq!(
        w.watch(Ok("B".to_string())),
        Some(NotificationEvent::Changed {
            url: "https://a.example".to_string(),
            old: "A".to_string(),
            new: "B".to_string(),
        })
    );
    // "B" is now the baseline
    assert_eq!(
        w.watch(Ok("B".to_string())),
        Some(NotificationEvent::NoChanges { url: "https://a.example".to_string() })
    );
}

#[test]
fn ignored_session_id() {
    let e = entry("https://b.example", vec![r"sessionid=\w+".to_string()]);
    let mut w = Watcher::new(&e).unwrap();
    assert_eq!(w.mask_value("x sessionid=abc y".to_string()), "x __ignored__ y");
    assert_eq!(w.mask_value("x sessionid=def y".to_string()), "x __ignored__ y");
    assert_eq!(w.watch(Ok("x sessionid=abc y".to_string())), None);
    assert_eq!(
        w.watch(Ok("x sessionid=def y".to_string())),
        Some(NotificationEvent::NoChanges { url: "https://b.example".to_string() })
    );
}

#[test]
fn failure_reported_once_and_rearmed() {
    let e = entry("https://c.example", vec![]);
    let mut w = Watcher::new(&e).unwrap();
    let failed = Some(NotificationEvent::Failed {
        url: "https://c.example".to_string(),
        reason: "HTTP request to https://c.example failed with status 503 and body: maintenance"
            .to_string(),
        status: Some(503),
        body: Some("maintenance".to_string()),
    });

    let r = w.read_response(ok(503, "maintenance"));
    assert_eq!(w.watch(r), failed);
    let r = w.read_response(ok(503, "maintenance"));
    assert_eq!(w.watch(r), None);
    let r = w.read_response(ok(200, "up"));
    assert_eq!(r, Ok("up".to_string()));
    assert_eq!(w.watch(r), None);
    let r = w.read_response(ok(503, "maintenance"));
    assert_eq!(w.watch(r), failed);
}

#[test]
fn transport_failure_uses_watcher_url() {
    let mut w = Watcher::new(&entry("https://d.example", vec![])).unwrap();
    let ev = w.watch(Err(DominionRequestError::Http("connection refused".to_string())));
    assert_eq!(
        ev,
        Some(NotificationEvent::Failed {
            url: "https://d.example".to_string(),
            reason: "HTTP error: connection refused".to_string(),
            status: None,
            body: None,
        })
    );
    assert_eq!(w.watch(Err(DominionRequestError::Http("again".to_string()))), None);
}

#[test]
fn first_fetch_failure_is_reported() {
    let mut w = Watcher::new(&entry("https://e.example", vec![])).unwrap();
    let ev = w.watch(Err(DominionRequestError::Json("expected value".to_string())));
    assert!(matches!(ev, Some(NotificationEvent::Failed { .. })));
    assert_eq!(w.watch(Ok("x".to_string())), None);
    assert_eq!(
        w.watch(Ok("y".to_string())),
        Some(NotificationEvent::Changed {
            url: "https://e.example".to_string(),
            old: "x".to_string(),
            new: "y".to_string(),
        })
    );
}

#[test]
fn invalid_pattern_is_rejected() {
    let r = Watcher::new(&entry("https://f.example", vec!["foo(".to_string()]));
    assert!(matches!(r, Err(DominionRequestError::Regex(_))));
}

#[test]
fn no_patterns_leave_content_alone() {
    let w = Watcher::new(&entry("https://g.example", vec![])).unwrap();
    assert_eq!(w.mask_value("sessionid=abc".to_string()), "sessionid=abc");
}

#[test]
fn content_without_match_is_unchanged() {
    let w = Watcher::new(&entry("https://h.example", vec!["[0-9]+".to_string()])).unwrap();
    assert_eq!(w.mask_value("no digits here".to_string()), "no digits here");
}

#[test]
fn masking_twice_is_masking_once() {
    let w = Watcher::new(&entry("https://i.example", vec!["[0-9]+".to_string(), "ab".to_string()])).unwrap();
    let once = w.mask_value("t=12345 ab x9".to_string());
    assert_eq!(once, "t=__ignored__ __ignored__ x__ignored__");
    assert_eq!(w.mask_value(once.clone()), once);
}

#[test]
fn json_body_is_reindented_in_key_order() {
    let w = Watcher::new(&entry("https://j.example", vec![])).unwrap();
    let r = w.read_response(HttpResponse {
        status: 200,
        content_type: Some("application/json".to_string()),
        body: r#"{"b":1,"a":[true]}"#.to_string(),
    });
    assert_eq!(
        r,
        Ok("{\n    \"b\": 1,\n    \"a\": [\n        true\n    ]\n}".to_string())
    );
}

#[test]
fn invalid_json_body_is_a_format_error() {
    let w = Watcher::new(&entry("https://k.example", vec![])).unwrap();
    let r = w.read_response(HttpResponse {
        status: 200,
        content_type: Some("application/problem+json".to_string()),
        body: "not json".to_string(),
    });
    assert!(matches!(r, Err(DominionRequestError::Json(_))));
}

#[test]
fn failed_json_response_carries_reindented_body() {
    let w = Watcher::new(&entry("https://l.example", vec![])).unwrap();
    let r = w.read_response(HttpResponse {
        status: 404,
        content_type: Some("application/json".to_string()),
        body: r#"{"error":"gone"}"#.to_string(),
    });
    assert_eq!(
        r,
        Err(DominionRequestError::HttpRequestFailed {
            url: "https://l.example".to_string(),
            status: 404,
            body: "{\n    \"error\": \"gone\"\n}".to_string(),
        })
    );
}

#[test]
fn missing_content_type_is_plain_text() {
    let w = Watcher::new(&entry("https://m.example", vec![])).unwrap();
    let r = w.read_response(HttpResponse { status: 299, content_type: None, body: "{\"a\":1}".to_string() });
    assert_eq!(r, Ok("{\"a\":1}".to_string()));
}

#[test]
fn headers_split_at_first_equals() {
    let mut e = entry("https://n.example", vec![]);
    e.headers = vec!["Authorization=Bearer a=b".to_string(), "X-Empty=".to_string()];
    e.method = "POST".to_string();
    let w = Watcher::new(&e).unwrap();
    assert_eq!(
        w.headers(),
        &vec![
            ("Authorization".to_string(), "Bearer a=b".to_string()),
            ("X-Empty".to_string(), String::new()),
        ]
    );
    assert_eq!(w.method(), "POST");
}

#[test]
fn hash_depends_on_content() {
    assert_eq!(hash("abc"), hash("abc"));
    assert_ne!(hash("abc"), hash("abd"));
}

#[test]
fn error_texts() {
    let e = DominionRequestError::HttpRequestFailed {
        url: "u".to_string(),
        status: 500,
        body: "b".to_string(),
    };
    assert_eq!(e.text(), "HTTP request to u failed with status 500 and body: b");
    assert_eq!(DominionRequestError::Json("x".to_string()).text(), "JSON error: x");
    assert_eq!(DominionRequestError::Http("y".to_string()).text(), "HTTP error: y");
    assert_eq!(DominionRequestError::Regex("z".to_string()).text(), "regex error: z");
}

#[test]
fn token_can_complete_a_new_match() {
    // the ignore token ends in "d__", so masking again finds a fresh match
    let w = Watcher::new(&entry("https://o.example", vec!["d__".to_string()])).unwrap();
    let once = w.mask_value("d__".to_string());
    assert_eq!(once, "__ignored__");
    assert_eq!(w.mask_value(once), "__ignore__ignored__");
}

#[test]
fn each_pattern_must_compile_on_its_own() {
    // joined as (?:a)|(b) this would compile; each alone does not
    let r = Watcher::new(&entry("https://p.example", vec!["a)".to_string(), "(b".to_string()]));
    assert!(matches!(r, Err(DominionRequestError::Regex(_))));
}

#[test]
fn finds_ignored_reports_matches() {
    let w = Watcher::new(&entry("https://q.example", vec![r"id=\d+".to_string()])).unwrap();
    assert!(w.finds_ignored("x id=42"));
    assert!(!w.finds_ignored("x id=abc"));
    let none = Watcher::new(&entry("https://r.example", vec![])).unwrap();
    assert!(!none.finds_ignored("id=1"));
}
