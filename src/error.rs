//! Errors of a fetch, each recovered by the watcher into a failure event.

use vstd::prelude::*;

use crate::text::{decimal, push_decimal};

verus! {

/// Why fetching a target did not yield content.
#[derive(Debug, PartialEq, Eq)]
pub enum DominionRequestError {
    /// The response declared JSON but its body did not parse as JSON.
    Json(String),
    /// The request could not be carried out (connection, protocol, body decoding).
    Http(String),
    /// The server answered with a status outside 200..=299.
    HttpRequestFailed { url: String, status: u16, body: String },
    /// An ignore pattern was rejected by the regex crate.
    Regex(String),
}

/// The human-readable description of an error.
pub open spec fn error_text(e: DominionRequestError) -> Seq<char> {
    match e {
        DominionRequestError::Json(m) => "JSON error: "@ + m@,
        DominionRequestError::Http(m) => "HTTP error: "@ + m@,
        DominionRequestError::HttpRequestFailed { url, status, body } => "HTTP request to "@ + url@
            + " failed with status "@ + decimal(status as nat) + " and body: "@ + body@,
        DominionRequestError::Regex(m) => "regex error: "@ + m@,
    }
}

impl DominionRequestError {
    /// Describes the error in words.
    pub fn text(&self) -> (r: String)
        ensures
            r@ == error_text(*self),
    {
        match self {
            DominionRequestError::Json(m) => {
                let mut r = String::from_str("JSON error: ");
                r.append(m.as_str());
                r
            },
            DominionRequestError::Http(m) => {
                let mut r = String::from_str("HTTP error: ");
                r.append(m.as_str());
                r
            },
            DominionRequestError::HttpRequestFailed { url, status, body } => {
                let mut r = String::from_str("HTTP request to ");
                r.append(url.as_str());
                r.append(" failed with status ");
                push_decimal(&mut r, *status as u64);
                r.append(" and body: ");
                r.append(body.as_str());
                r
            },
            DominionRequestError::Regex(m) => {
                let mut r = String::from_str("regex error: ");
                r.append(m.as_str());
                r
            },
        }
    }
}

} // verus!
