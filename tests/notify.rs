use dominion::config::WatchEntry;
use dominion::event::NotificationEvent;
use dominion::notify::{dispatch, startup_event, HandlerCall, Heartbeat, HeartbeatItem, HeartbeatType};

fn entries(urls: &[&str]) -> Vec<WatchEntry> {
    urls.iter()
        .map(|u| WatchEntry { url: u.to_string(), ..WatchEntry::default() })
        .collect()
}

#[test]
fn heartbeat_snapshot_after_change() {
    let mut hb = Heartbeat::from(&entries(&["https://a", "https://b"]));
    let snap = hb.snapshot();
    for item in &snap.items {
        assert_eq!((item.last_update, item.last_change, item.last_failure), (None, None, None));
    }
    assert!(!snap.dirty);

    let ev = NotificationEvent::Changed {
        url: "https://b".to_string(),
        old: "1".to_string(),
        new: "2".to_string(),
    };
    assert_eq!(dispatch(&mut hb, &ev, 1_700_000_000), HandlerCall::Changed);
    let snap = hb.snapshot();
    assert!(snap.dirty);
    assert_eq!(snap.items[1].last_update, Some(1_700_000_000));
    assert_eq!(snap.items[1].last_change, Some(1_700_000_000));
    assert_eq!(snap.items[1].last_failure, None);
    assert_eq!(snap.items[0].last_update, None);
}

#[test]
fn dispatch_routes_each_event() {
    let mut hb = Heartbeat::from(&entries(&["https://a"]));
    let startup = startup_event(&entries(&["https://a"]));
    assert_eq!(startup, NotificationEvent::Startup { urls: vec!["https://a".to_string()] });
    assert_eq!(dispatch(&mut hb, &startup, 5), HandlerCall::Startup);
    assert!(!hb.dirty);
    assert_eq!(hb.items[0].last_update, None);

    let none = NotificationEvent::NoChanges { url: "https://a".to_string() };
    assert_eq!(dispatch(&mut hb, &none, 6), HandlerCall::Heartbeat);
    assert_eq!(hb.items[0].last_update, Some(6));
    assert_eq!(hb.items[0].last_change, None);

    let failed = NotificationEvent::Failed {
        url: "https://a".to_string(),
        reason: "r".to_string(),
        status: None,
        body: None,
    };
    assert_eq!(dispatch(&mut hb, &failed, 7), HandlerCall::Failed);
    assert_eq!(hb.items[0].last_update, Some(7));
    assert_eq!(hb.items[0].last_failure, Some(7));
    assert_eq!(hb.items[0].last_change, None);

    hb.mark_sent();
    assert!(!hb.dirty);
    assert_eq!(hb.items[0].last_failure, Some(7));
}

#[test]
fn unknown_target_gets_a_new_item() {
    let mut hb = Heartbeat::from(&entries(&["https://a"]));
    hb.update("https://z", HeartbeatType::Failure, 42);
    assert_eq!(hb.items.len(), 2);
    assert_eq!(
        hb.items[1],
        HeartbeatItem {
            url: "https://z".to_string(),
            last_update: Some(42),
            last_change: None,
            last_failure: Some(42),
        }
    );
    hb.update("https://z", HeartbeatType::Change, 43);
    assert_eq!(hb.items.len(), 2);
    assert_eq!(hb.items[1].last_change, Some(43));
    assert_eq!(hb.items[1].last_failure, Some(42));
}

#[test]
fn heartbeat_item_update_kinds() {
    let mut item = HeartbeatItem::new("https://q");
    item.update(HeartbeatType::NoChange, 1);
    assert_eq!((item.last_update, item.last_change, item.last_failure), (Some(1), None, None));
    item.update(HeartbeatType::Change, 2);
    assert_eq!((item.last_update, item.last_change, item.last_failure), (Some(2), Some(2), None));
}
