//! Heartbeat bookkeeping and the dispatcher's handling of each event: which
//! per-target timestamps it records and which handler callback it calls.

use vstd::prelude::*;

use crate::config::WatchEntry;
use crate::event::{EventView, NotificationEvent};

verus! {

/// What an event records for its target.
#[derive(Clone, Copy, Debug, PartialEq, Eq, Structural)]
pub enum HeartbeatType {
    Change,
    NoChange,
    Failure,
}

/// Liveness of one target: when it was last polled, last changed, last failed
/// (seconds since the Unix epoch).
#[derive(Debug, PartialEq, Eq)]
pub struct HeartbeatItem {
    pub url: String,
    pub last_update: Option<u64>,
    pub last_change: Option<u64>,
    pub last_failure: Option<u64>,
}

/// A heartbeat item as plain values.
pub struct ItemView {
    pub url: Seq<char>,
    pub last_update: Option<u64>,
    pub last_change: Option<u64>,
    pub last_failure: Option<u64>,
}

impl View for HeartbeatItem {
    type V = ItemView;

    open spec fn view(&self) -> ItemView {
        ItemView {
            url: self.url@,
            last_update: self.last_update,
            last_change: self.last_change,
            last_failure: self.last_failure,
        }
    }
}

/// Liveness of all targets, in order, and whether anything was recorded since the
/// last heartbeat emission.
#[derive(Debug, PartialEq, Eq)]
pub struct Heartbeat {
    pub items: Vec<HeartbeatItem>,
    pub dirty: bool,
}

/// The items of a heartbeat as plain values.
pub open spec fn items_view(items: Seq<HeartbeatItem>) -> Seq<ItemView> {
    items.map_values(|it: HeartbeatItem| it@)
}

/// The item of a target with no recorded activity.
pub open spec fn fresh_item(url: Seq<char>) -> ItemView {
    ItemView { url, last_update: None, last_change: None, last_failure: None }
}

/// An item after recording an event of kind `kind` at time `now`.
pub open spec fn item_updated(item: ItemView, kind: HeartbeatType, now: u64) -> ItemView {
    ItemView {
        last_update: Some(now),
        last_change: if kind == HeartbeatType::Change { Some(now) } else { item.last_change },
        last_failure: if kind == HeartbeatType::Failure { Some(now) } else { item.last_failure },
        ..item
    }
}

/// Whether `i` is the first item of target `url`.
pub open spec fn is_first_of(items: Seq<ItemView>, url: Seq<char>, i: int) -> bool {
    &&& 0 <= i < items.len()
    &&& items[i].url == url
    &&& forall|j: int| 0 <= j < i ==> items[j].url != url
}

/// The items after recording an event of kind `kind` for `url` at time `now`: the
/// first item of that target is updated, or a new item for it is appended.
pub open spec fn items_updated(items: Seq<ItemView>, url: Seq<char>, kind: HeartbeatType, now: u64) -> Seq<ItemView> {
    if exists|i: int| is_first_of(items, url, i) {
        let i = choose|i: int| is_first_of(items, url, i);
        items.update(i, item_updated(items[i], kind, now))
    } else {
        items.push(item_updated(fresh_item(url), kind, now))
    }
}

/// The urls of the targets.
pub open spec fn entry_urls(entries: Seq<WatchEntry>) -> Seq<Seq<char>> {
    entries.map_values(|e: WatchEntry| e.url@)
}

/// The items of a fresh heartbeat for targets with these urls.
pub open spec fn fresh_items(urls: Seq<Seq<char>>) -> Seq<ItemView> {
    urls.map_values(|u: Seq<char>| fresh_item(u))
}

proof fn lemma_first_of_unique(items: Seq<ItemView>, url: Seq<char>, i: int)
    requires
        is_first_of(items, url, i),
    ensures
        (choose|k: int| is_first_of(items, url, k)) == i,
{
    let k = choose|k: int| is_first_of(items, url, k);
    assert(is_first_of(items, url, k));
    if k < i {
        assert(items[k].url != url);
    } else if i < k {
        assert(items[i].url != url);
    }
}

proof fn lemma_some_first_of(items: Seq<ItemView>, url: Seq<char>, j: int)
    requires
        0 <= j < items.len(),
        items[j].url == url,
    ensures
        exists|i: int| is_first_of(items, url, i),
    decreases j,
{
    if exists|n: int| 0 <= n < j && items[n].url == url {
        let n = choose|n: int| 0 <= n < j && items[n].url == url;
        lemma_some_first_of(items, url, n);
    } else {
        assert(is_first_of(items, url, j));
    }
}

/// A target with no recorded activity has all three timestamps absent; after one
/// change recorded at `now`, its last update and last change are both `now` and its
/// last failure is still absent.
pub proof fn lemma_heartbeat_after_change(urls: Seq<Seq<char>>, url: Seq<char>, now: u64)
    ensures
        forall|i: int| 0 <= i < urls.len() ==> {
            let item = #[trigger] fresh_items(urls)[i];
            item.last_update is None && item.last_change is None && item.last_failure is None
        },
        ({
            let after = items_updated(fresh_items(urls), url, HeartbeatType::Change, now);
            &&& exists|k: int| is_first_of(after, url, k)
            &&& forall|k: int| is_first_of(after, url, k) ==> {
                &&& (#[trigger] after[k]).last_update == Some(now)
                &&& after[k].last_change == Some(now)
                &&& after[k].last_failure is None
            }
        }),
{
    let items = fresh_items(urls);
    let after = items_updated(items, url, HeartbeatType::Change, now);
    if exists|i: int| is_first_of(items, url, i) {
        let i = choose|i: int| is_first_of(items, url, i);
        assert(is_first_of(after, url, i));
        assert forall|k: int| is_first_of(after, url, k) implies k == i by {
            if k < i {
                assert(after[k] == items[k]);
            } else if i < k {
                assert(after[i].url == url);
            }
        }
    } else {
        let k0 = items.len() as int;
        assert forall|j: int| 0 <= j < k0 implies after[j].url != url by {
            assert(after[j] == items[j]);
            if items[j].url == url {
                lemma_some_first_of(items, url, j);
            }
        }
        assert(is_first_of(after, url, k0));
        assert forall|k: int| is_first_of(after, url, k) implies k == k0 by {
            if k < k0 {
                assert(after[k].url != url);
            }
        }
    }
}

impl HeartbeatItem {
    /// The item of a target with no recorded activity.
    pub fn new(url: &str) -> (r: HeartbeatItem)
        ensures
            r@ == fresh_item(url@),
    {
        HeartbeatItem { url: url.to_owned(), last_update: None, last_change: None, last_failure: None }
    }

    /// Records an event of kind `update_type` at time `now` (seconds since the epoch).
    pub fn update(&mut self, update_type: HeartbeatType, now: u64)
        ensures
            final(self)@ == item_updated(old(self)@, update_type, now),
    {
        let now = Some(now);
        self.last_update = now;
        match update_type {
            HeartbeatType::Change => {
                self.last_change = now;
            },
            HeartbeatType::Failure => {
                self.last_failure = now;
            },
            HeartbeatType::NoChange => {},
        }
    }

    /// A copy of the item.
    pub fn snapshot(&self) -> (r: HeartbeatItem)
        ensures
            r@ == self@,
    {
        HeartbeatItem {
            url: self.url.clone(),
            last_update: self.last_update,
            last_change: self.last_change,
            last_failure: self.last_failure,
        }
    }
}

impl Heartbeat {
    /// A heartbeat with one fresh item per target, in configuration order.
    pub fn from(entries: &[WatchEntry]) -> (r: Heartbeat)
        ensures
            items_view(r.items@) == fresh_items(entry_urls(entries@)),
            !r.dirty,
    {
        let mut items: Vec<HeartbeatItem> = Vec::with_capacity(entries.len());
        let mut i: usize = 0;
        while i < entries.len()
            invariant
                0 <= i <= entries@.len(),
                items@.len() == i,
                forall|k: int| 0 <= k < i ==> (#[trigger] items@[k])@ == fresh_item(entries@[k].url@),
            decreases entries.len() - i,
        {
            items.push(HeartbeatItem::new(entries[i].url.as_str()));
            i = i + 1;
        }
        assert(items_view(items@) =~= fresh_items(entry_urls(entries@)));
        Heartbeat { items, dirty: false }
    }

    /// Records an event of kind `update_type` for target `url` at time `now`, and
    /// marks the heartbeat dirty. An unknown target gets a new item.
    pub fn update(&mut self, url: &str, update_type: HeartbeatType, now: u64)
        ensures
            final(self).dirty,
            items_view(final(self).items@) == items_updated(items_view(old(self).items@), url@, update_type, now),
    {
        self.dirty = true;
        let target = url.to_owned();
        let ghost items0 = items_view(self.items@);
        let mut i: usize = 0;
        while i < self.items.len()
            invariant
                0 <= i <= self.items@.len(),
                items_view(self.items@) == items0,
                items0 == items_view(old(self).items@),
                target@ == url@,
                self.dirty,
                forall|j: int| 0 <= j < i ==> items0[j].url != url@,
            decreases self.items.len() - i,
        {
            if self.items[i].url == target {
                assert(is_first_of(items0, url@, i as int));
                proof {
                    lemma_first_of_unique(items0, url@, i as int);
                }
                let mut item = self.items[i].snapshot();
                item.update(update_type, now);
                self.items.set(i, item);
                assert(items_view(self.items@) =~= items_updated(items0, url@, update_type, now));
                return;
            }
            i = i + 1;
        }
        assert(!exists|k: int| is_first_of(items0, url@, k));
        let mut item = HeartbeatItem::new(url);
        item.update(update_type, now);
        self.items.push(item);
        assert(items_view(self.items@) =~= items_updated(items0, url@, update_type, now));
    }

    /// A point-in-time copy of the heartbeat.
    pub fn snapshot(&self) -> (r: Heartbeat)
        ensures
            items_view(r.items@) == items_view(self.items@),
            r.dirty == self.dirty,
    {
        let mut items: Vec<HeartbeatItem> = Vec::with_capacity(self.items.len());
        let mut i: usize = 0;
        while i < self.items.len()
            invariant
                0 <= i <= self.items@.len(),
                items@.len() == i,
                forall|k: int| 0 <= k < i ==> (#[trigger] items@[k])@ == self.items@[k]@,
            decreases self.items.len() - i,
        {
            items.push(self.items[i].snapshot());
            i = i + 1;
        }
        assert(items_view(items@) =~= items_view(self.items@));
        Heartbeat { items, dirty: self.dirty }
    }

    /// Clears the dirty mark once a heartbeat has been emitted.
    pub fn mark_sent(&mut self)
        ensures
            !final(self).dirty,
            final(self).items@ == old(self).items@,
    {
        self.dirty = false;
    }
}

/// The startup event announcing every configured target, in order.
pub fn startup_event(entries: &[WatchEntry]) -> (e: NotificationEvent)
    ensures
        e@ == (EventView::Startup { urls: entry_urls(entries@) }),
{
    let mut urls: Vec<String> = Vec::with_capacity(entries.len());
    let mut i: usize = 0;
    while i < entries.len()
        invariant
            0 <= i <= entries@.len(),
            urls@.len() == i,
            forall|k: int| 0 <= k < i ==> (#[trigger] urls@[k])@ == entries@[k].url@,
        decreases entries.len() - i,
    {
        urls.push(entries[i].url.clone());
        i = i + 1;
    }
    assert(urls.deep_view() =~= entry_urls(entries@));
    NotificationEvent::Startup { urls }
}

/// The handler callback that the dispatcher calls for an event.
#[derive(Clone, Copy, Debug, PartialEq, Eq, Structural)]
pub enum HandlerCall {
    /// `on_startup` with the event's urls.
    Startup,
    /// `on_changed` with the event's url and contents.
    Changed,
    /// `on_failed` with the event's url, reason, status and body.
    Failed,
    /// `on_heartbeat` with a snapshot of the heartbeat.
    Heartbeat,
}

/// What the heartbeat records for an event: the target and the kind, if any.
pub open spec fn recorded_by(event: NotificationEvent) -> Option<(Seq<char>, HeartbeatType)> {
    match event {
        NotificationEvent::Startup { .. } => None,
        NotificationEvent::Changed { url, .. } => Some((url@, HeartbeatType::Change)),
        NotificationEvent::NoChanges { url } => Some((url@, HeartbeatType::NoChange)),
        NotificationEvent::Failed { url, .. } => Some((url@, HeartbeatType::Failure)),
    }
}

/// The callback that every handler receives for an event.
pub open spec fn call_for(event: NotificationEvent) -> HandlerCall {
    match event {
        NotificationEvent::Startup { .. } => HandlerCall::Startup,
        NotificationEvent::Changed { .. } => HandlerCall::Changed,
        NotificationEvent::NoChanges { .. } => HandlerCall::Heartbeat,
        NotificationEvent::Failed { .. } => HandlerCall::Failed,
    }
}

/// Handles one event received at time `now`: records it in the heartbeat (startup
/// records nothing) and returns the callback that every handler is then called with,
/// in registration order.
pub fn dispatch(heartbeat: &mut Heartbeat, event: &NotificationEvent, now: u64) -> (call: HandlerCall)
    ensures
        call == call_for(*event),
        match recorded_by(*event) {
            None => final(heartbeat).items@ == old(heartbeat).items@ && final(heartbeat).dirty == old(heartbeat).dirty,
            Some((url, kind)) => final(heartbeat).dirty && items_view(final(heartbeat).items@)
                == items_updated(items_view(old(heartbeat).items@), url, kind, now),
        },
{
    match event {
        NotificationEvent::Startup { .. } => HandlerCall::Startup,
        NotificationEvent::Changed { url, .. } => {
            heartbeat.update(url.as_str(), HeartbeatType::Change, now);
            HandlerCall::Changed
        },
        NotificationEvent::NoChanges { url } => {
            heartbeat.update(url.as_str(), HeartbeatType::NoChange, now);
            HandlerCall::Heartbeat
        },
        NotificationEvent::Failed { url, .. } => {
            heartbeat.update(url.as_str(), HeartbeatType::Failure, now);
            HandlerCall::Failed
        },
    }
}

} // verus!
