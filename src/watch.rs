//! The watcher of one target: reading a fetched response, masking and hashing its
//! content, and deciding which event one poll emits.

use std::collections::hash_map::DefaultHasher;
use std::hash::Hasher;

use vstd::prelude::*;
use vstd::std_specs::hash::DefaultHasherAdditionalSpecFns;

use crate::config::WatchEntry;
use crate::error::DominionRequestError;
use crate::event::{opt_event, EventView, NotificationEvent};
use crate::mask::{
    apply_mask, build_mask, mask_finds_match, mask_for, mask_matches, mask_source, mask_value,
    patterns_compile, IgnoreMask,
};
use crate::text::{after_first, before_first, contains_text, occurs_in, split_once_char};

verus! {

/// Whether serde_json parses `text` as one JSON value.
pub uninterp spec fn parses_as_json(text: Seq<char>) -> bool;

/// The JSON value that `text` holds, written back with serde_json's pretty printer
/// indenting each level by `indent`, object keys in the order they came in.
pub uninterp spec fn pretty_json(text: Seq<char>, indent: Seq<char>) -> Seq<char>;

/// The indent of one level of re-written JSON.
pub const JSON_INDENT: &'static str = "    ";

#[verifier::external_type_specification]
#[verifier::external_body]
pub struct ExJsonError(serde_json::Error);

/// Relies on serde_json::from_str into a serde_json::Value, and on serialising that
/// value with a PrettyFormatter indenting by `indent`: it fails exactly when the text
/// is not JSON (writing a parsed value into memory does not fail, and its bytes are
/// UTF-8 since the text and the indent are).
#[verifier::external_body]
fn reindent_json(text: &str, indent: &str) -> (r: Result<String, serde_json::Error>)
    ensures
        r is Ok <==> parses_as_json(text@),
        r matches Ok(s) ==> s@ == pretty_json(text@, indent@),
{
    let value: serde_json::Value = serde_json::from_str(text)?;
    let mut buf = Vec::new();
    let formatter = serde_json::ser::PrettyFormatter::with_indent(indent.as_bytes());
    let mut ser = serde_json::Serializer::with_formatter(&mut buf, formatter);
    serde::Serialize::serialize(&value, &mut ser)?;
    String::from_utf8(buf).map_err(<serde_json::Error as serde::ser::Error>::custom)
}

/// The hash of a text: std's default hasher fed the text's UTF-8 bytes.
pub open spec fn content_hash(s: Seq<char>) -> u64 {
    DefaultHasher::spec_finish(seq![vstd::utf8::encode_utf8(s)])
}

/// Hashes a text.
pub fn hash(value: &str) -> (h: u64)
    ensures
        h == content_hash(value@),
{
    let mut hasher = DefaultHasher::new();
    hasher.write(value.as_bytes());
    hasher.finish()
}

/// What the network layer got back for one request.
pub struct HttpResponse {
    pub status: u16,
    /// The `Content-Type` header, when present and readable as text.
    pub content_type: Option<String>,
    pub body: String,
}

/// Whether a status code reports success (2xx).
pub open spec fn is_success(status: u16) -> bool {
    200 <= status <= 299
}

/// Whether a response declares JSON content.
pub open spec fn declares_json(content_type: Option<Seq<char>>) -> bool {
    match content_type {
        Some(ct) => occurs_in("json"@, ct),
        None => false,
    }
}

/// A header line split into name and value at its first `=`.
pub open spec fn header_pair(h: Seq<char>) -> (Seq<char>, Seq<char>) {
    (before_first(h, '='), after_first(h, '='))
}

/// The watcher's state as plain values.
pub struct WatcherView {
    pub url: Seq<char>,
    pub method: Seq<char>,
    pub headers: Seq<(Seq<char>, Seq<char>)>,
    pub mask: Option<Seq<char>>,
    pub last_failed: bool,
    pub previous: Option<Seq<char>>,
    pub previous_hash: u64,
}

/// The watcher of one target. It owns the target's state and is advanced one poll at
/// a time by `watch`.
pub struct Watcher {
    pub url: String,
    method: String,
    headers: Vec<(String, String)>,
    ignore_mask: Option<IgnoreMask>,
    last_failed: bool,
    previous: Option<String>,
    previous_hash: u64,
}

impl View for Watcher {
    type V = WatcherView;

    closed spec fn view(&self) -> WatcherView {
        WatcherView {
            url: self.url@,
            method: self.method@,
            headers: self.headers@.map_values(|h: (String, String)| (h.0@, h.1@)),
            mask: mask_source(self.ignore_mask),
            last_failed: self.last_failed,
            previous: match self.previous {
                Some(p) => Some(p@),
                None => None,
            },
            previous_hash: self.previous_hash,
        }
    }
}

/// The failure event for an error met while fetching `url`.
pub open spec fn failure_event(url: Seq<char>, e: DominionRequestError) -> EventView {
    match e {
        DominionRequestError::HttpRequestFailed { url: failed_url, status, body } => EventView::Failed {
            url: failed_url@,
            reason: crate::error::error_text(e),
            status: Some(status),
            body: Some(body@),
        },
        _ => EventView::Failed {
            url,
            reason: crate::error::error_text(e),
            status: None,
            body: None,
        },
    }
}

/// The outcome of a fetch as plain values.
pub open spec fn fetched_view(fetched: Result<String, DominionRequestError>) -> Result<Seq<char>, DominionRequestError> {
    match fetched {
        Ok(s) => Ok(s@),
        Err(e) => Err(e),
    }
}

/// One poll: the state after a fetch outcome, and the event it emits.
///
/// A success clears the failure flag. The first success only records a baseline;
/// later ones emit `NoChanges` when the masked content hashes as before, and
/// otherwise `Changed` with the unmasked old and new content, which becomes the new
/// baseline. A failure emits `Failed` only when the previous poll had not failed.
pub open spec fn watch_step(
    w: WatcherView,
    fetched: Result<Seq<char>, DominionRequestError>,
) -> (WatcherView, Option<EventView>) {
    match fetched {
        Ok(content) => {
            let h = content_hash(apply_mask(w.mask, content));
            let recovered = WatcherView { last_failed: false, ..w };
            match w.previous {
                None => (WatcherView { previous: Some(content), previous_hash: h, ..recovered }, None),
                Some(prev) => if h == w.previous_hash {
                    (recovered, Some(EventView::NoChanges { url: w.url }))
                } else {
                    (
                        WatcherView { previous: Some(content), previous_hash: h, ..recovered },
                        Some(EventView::Changed { url: w.url, old: prev, new: content }),
                    )
                },
            }
        },
        Err(e) => if w.last_failed {
            (w, None)
        } else {
            (WatcherView { last_failed: true, ..w }, Some(failure_event(w.url, e)))
        },
    }
}

/// Whether every header line holds a `=` between name and value.
pub open spec fn headers_well_formed(headers: Seq<String>) -> bool {
    forall|k: int| 0 <= k < headers.len() ==> (#[trigger] headers[k])@.contains('=')
}

/// The state of a freshly built watcher for `entry`.
pub open spec fn initial_view(entry: WatchEntry) -> WatcherView {
    WatcherView {
        url: entry.url@,
        method: entry.method@,
        headers: entry.headers@.map_values(|h: String| header_pair(h@)),
        mask: mask_for(entry.ignore.deep_view()),
        last_failed: false,
        previous: None,
        previous_hash: 0,
    }
}

impl Watcher {
    /// Builds the watcher of a target. Fails with `Regex` when the regex crate
    /// rejects the ignore patterns.
    pub fn new(entry: &WatchEntry) -> (r: Result<Watcher, DominionRequestError>)
        requires
            headers_well_formed(entry.headers@),
        ensures
            r is Ok <==> patterns_compile(entry.ignore.deep_view()),
            r matches Ok(w) ==> w@ == initial_view(*entry),
            r matches Err(e) ==> e is Regex,
    {
        let mut headers: Vec<(String, String)> = Vec::new();
        let mut i: usize = 0;
        while i < entry.headers.len()
            invariant
                0 <= i <= entry.headers.len(),
                headers_well_formed(entry.headers@),
                headers@.len() == i,
                forall|k: int| 0 <= k < i ==> (#[trigger] headers@[k]).0@ == header_pair(entry.headers@[k]@).0
                    && headers@[k].1@ == header_pair(entry.headers@[k]@).1,
            decreases entry.headers.len() - i,
        {
            assert(entry.headers@[i as int]@.contains('='));
            match split_once_char(entry.headers[i].as_str(), '=') {
                Some(pair) => headers.push(pair),
                None => {},
            }
            i = i + 1;
        }
        let ignore_mask = match build_mask(&entry.ignore) {
            Ok(m) => m,
            Err(e) => {
                return Err(DominionRequestError::Regex(e.to_string()));
            },
        };
        let w = Watcher {
            url: entry.url.clone(),
            method: entry.method.clone(),
            headers,
            ignore_mask,
            last_failed: false,
            previous: None,
            previous_hash: 0,
        };
        assert(w@.headers =~= initial_view(*entry).headers);
        Ok(w)
    }

    /// The HTTP method to fetch with.
    pub fn method(&self) -> (m: &str)
        ensures
            m@ == self@.method,
    {
        self.method.as_str()
    }

    /// The request headers, as name and value.
    pub fn headers(&self) -> (h: &Vec<(String, String)>)
        ensures
            h@.map_values(|p: (String, String)| (p.0@, p.1@)) == self@.headers,
    {
        &self.headers
    }

    /// Masks `value` with this target's ignore patterns.
    pub fn mask_value(&self, value: String) -> (r: String)
        ensures
            r@ == apply_mask(self@.mask, value@),
            !mask_matches(self@.mask, value@) ==> r@ == value@,
            !mask_matches(self@.mask, r@) ==> apply_mask(self@.mask, r@) == r@,
    {
        mask_value(&self.ignore_mask, value)
    }

    /// Whether this target's ignore patterns find something to replace in `text`.
    pub fn finds_ignored(&self, text: &str) -> (r: bool)
        ensures
            r == mask_matches(self@.mask, text@),
    {
        mask_finds_match(&self.ignore_mask, text)
    }

    /// Turns a response into the content to compare: JSON (by content type) is
    /// re-indented, other bodies are taken as they are; a status outside 2xx is an
    /// `HttpRequestFailed` carrying that content.
    pub fn read_response(&self, response: HttpResponse) -> (r: Result<String, DominionRequestError>)
        ensures
            ({
                let json = declares_json(match response.content_type {
                    Some(ct) => Some(ct@),
                    None => None,
                });
                let text = if json { pretty_json(response.body@, JSON_INDENT@) } else { response.body@ };
                if json && !parses_as_json(response.body@) {
                    r matches Err(e) && e is Json
                } else if !is_success(response.status) {
                    r matches Err(e) && e matches DominionRequestError::HttpRequestFailed { url, status, body }
                        && url@ == self@.url && status == response.status && body@ == text
                } else {
                    r matches Ok(s) && s@ == text
                }
            }),
    {
        let is_json = match &response.content_type {
            Some(ct) => contains_text(ct.as_str(), "json"),
            None => false,
        };
        let text = if is_json {
            match reindent_json(response.body.as_str(), JSON_INDENT) {
                Ok(t) => t,
                Err(e) => {
                    return Err(DominionRequestError::Json(e.to_string()));
                },
            }
        } else {
            response.body
        };
        if !(200 <= response.status && response.status <= 299) {
            return Err(
                DominionRequestError::HttpRequestFailed {
                    url: self.url.clone(),
                    status: response.status,
                    body: text,
                },
            );
        }
        Ok(text)
    }

    /// Advances the watcher by one poll whose fetch gave `fetched`, and returns the
    /// event to emit, if any.
    pub fn watch(&mut self, fetched: Result<String, DominionRequestError>) -> (event: Option<NotificationEvent>)
        ensures
            (final(self)@, opt_event(event)) == watch_step(old(self)@, fetched_view(fetched)),
    {
        match fetched {
            Ok(content) => {
                self.last_failed = false;
                let current = content;
                let current_masked = self.mask_value(current.clone());
                let current_hash = hash(current_masked.as_str());
                match &self.previous {
                    Some(prev) => {
                        if current_hash == self.previous_hash {
                            Some(NotificationEvent::NoChanges { url: self.url.clone() })
                        } else {
                            let event = NotificationEvent::Changed {
                                url: self.url.clone(),
                                old: prev.clone(),
                                new: current.clone(),
                            };
                            self.previous = Some(current);
                            self.previous_hash = current_hash;
                            Some(event)
                        }
                    },
                    None => {
                        self.previous = Some(current);
                        self.previous_hash = current_hash;
                        None
                    },
                }
            },
            Err(err) => {
                if !self.last_failed {
                    self.last_failed = true;
                    let reason = err.text();
                    let event = match err {
                        DominionRequestError::HttpRequestFailed { url, status, body } => {
                            NotificationEvent::Failed { url, reason, status: Some(status), body: Some(body) }
                        },
                        _ => NotificationEvent::Failed {
                            url: self.url.clone(),
                            reason,
                            status: None,
                            body: None,
                        },
                    };
                    Some(event)
                } else {
                    None
                }
            },
        }
    }
}

/// The polls of a run of fetch outcomes, in order: the final state, and the event
/// (or none) of each poll.
pub open spec fn poll_all(
    w: WatcherView,
    outcomes: Seq<Result<Seq<char>, DominionRequestError>>,
) -> (WatcherView, Seq<Option<EventView>>)
    decreases outcomes.len(),
{
    if outcomes.len() == 0 {
        (w, Seq::empty())
    } else {
        let (next, event) = watch_step(w, outcomes[0]);
        let (last, events) = poll_all(next, outcomes.drop_first());
        (last, seq![event] + events)
    }
}

/// Two consecutive fetches whose content masks to the same text: the second poll
/// emits `NoChanges`, never `Changed`.
pub proof fn lemma_same_masked_content_no_changes(w: WatcherView, first: Seq<char>, second: Seq<char>)
    requires
        apply_mask(w.mask, first) == apply_mask(w.mask, second),
    ensures
        watch_step(watch_step(w, Ok(first)).0, Ok(second)).1 == Some(EventView::NoChanges { url: w.url }),
{
}

/// The first fetch of a fresh watcher emits neither `Changed` nor `NoChanges`:
/// a success only records the baseline.
pub proof fn lemma_first_fetch_is_baseline(entry: WatchEntry, fetched: Result<Seq<char>, DominionRequestError>)
    ensures
        !(watch_step(initial_view(entry), fetched).1 matches Some(EventView::Changed { .. })),
        !(watch_step(initial_view(entry), fetched).1 matches Some(EventView::NoChanges { .. })),
        fetched is Ok ==> watch_step(initial_view(entry), fetched).1 is None,
{
}

proof fn lemma_failing_stays_silent(w: WatcherView, outcomes: Seq<Result<Seq<char>, DominionRequestError>>)
    requires
        w.last_failed,
        forall|i: int| 0 <= i < outcomes.len() ==> (#[trigger] outcomes[i]) is Err,
    ensures
        forall|i: int| 0 <= i < outcomes.len() ==> (#[trigger] poll_all(w, outcomes).1[i]) is None,
        poll_all(w, outcomes).1.len() == outcomes.len(),
    decreases outcomes.len(),
{
    if outcomes.len() > 0 {
        let rest = outcomes.drop_first();
        assert forall|i: int| 0 <= i < rest.len() implies (#[trigger] rest[i]) is Err by {
            assert(rest[i] == outcomes[i + 1]);
        }
        lemma_failing_stays_silent(watch_step(w, outcomes[0]).0, rest);
        let events = poll_all(w, outcomes).1;
        assert forall|i: int| 0 <= i < outcomes.len() implies (#[trigger] events[i]) is None by {
            if i > 0 {
                assert(events[i] == poll_all(watch_step(w, outcomes[0]).0, rest).1[i - 1]);
            }
        }
    }
}

/// A run of consecutive failures, met while not failing, emits exactly one `Failed`
/// event: on its first poll.
pub proof fn lemma_failures_reported_once(w: WatcherView, outcomes: Seq<Result<Seq<char>, DominionRequestError>>)
    requires
        !w.last_failed,
        outcomes.len() > 0,
        forall|i: int| 0 <= i < outcomes.len() ==> (#[trigger] outcomes[i]) is Err,
    ensures
        poll_all(w, outcomes).1.len() == outcomes.len(),
        poll_all(w, outcomes).1[0] == Some(failure_event(w.url, outcomes[0]->Err_0)),
        forall|i: int| 1 <= i < outcomes.len() ==> (#[trigger] poll_all(w, outcomes).1[i]) is None,
{
    assert(outcomes[0] is Err);
    let rest = outcomes.drop_first();
    assert forall|i: int| 0 <= i < rest.len() implies (#[trigger] rest[i]) is Err by {
        assert(rest[i] == outcomes[i + 1]);
    }
    let next = watch_step(w, outcomes[0]).0;
    lemma_failing_stays_silent(next, rest);
    let events = poll_all(w, outcomes).1;
    assert forall|i: int| 1 <= i < outcomes.len() implies (#[trigger] events[i]) is None by {
        assert(events[i] == poll_all(next, rest).1[i - 1]);
    }
}

/// A success between two failures re-arms failure reporting: the later failure emits
/// its `Failed` event again.
pub proof fn lemma_failure_rearmed(
    w: WatcherView,
    first: DominionRequestError,
    content: Seq<char>,
    second: DominionRequestError,
)
    ensures
        watch_step(
            watch_step(watch_step(w, Err(first)).0, Ok(content)).0,
            Err(second),
        ).1 == Some(failure_event(w.url, second)),
{
}

} // verus!
