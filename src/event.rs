//! The events that watchers emit and the dispatcher hands to channel handlers.

use vstd::prelude::*;

verus! {

/// One notification, carried from a watcher (or from startup) to the dispatcher.
#[derive(Debug, PartialEq, Eq)]
pub enum NotificationEvent {
    Startup { urls: Vec<String> },
    Changed { url: String, old: String, new: String },
    NoChanges { url: String },
    Failed { url: String, reason: String, status: Option<u16>, body: Option<String> },
}

/// A notification as plain values.
pub enum EventView {
    Startup { urls: Seq<Seq<char>> },
    Changed { url: Seq<char>, old: Seq<char>, new: Seq<char> },
    NoChanges { url: Seq<char> },
    Failed { url: Seq<char>, reason: Seq<char>, status: Option<u16>, body: Option<Seq<char>> },
}

/// The view of an optional text.
pub open spec fn opt_text(s: Option<String>) -> Option<Seq<char>> {
    match s {
        None => None,
        Some(t) => Some(t@),
    }
}

impl View for NotificationEvent {
    type V = EventView;

    open spec fn view(&self) -> EventView {
        match self {
            NotificationEvent::Startup { urls } => EventView::Startup { urls: urls.deep_view() },
            NotificationEvent::Changed { url, old, new } => EventView::Changed {
                url: url@,
                old: old@,
                new: new@,
            },
            NotificationEvent::NoChanges { url } => EventView::NoChanges { url: url@ },
            NotificationEvent::Failed { url, reason, status, body } => EventView::Failed {
                url: url@,
                reason: reason@,
                status: *status,
                body: opt_text(*body),
            },
        }
    }
}

/// The view of an optional event.
pub open spec fn opt_event(e: Option<NotificationEvent>) -> Option<EventView> {
    match e {
        None => None,
        Some(ev) => Some(ev@),
    }
}

} // verus!
