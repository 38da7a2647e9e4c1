//! Telling clients apart by what their requests carry.
use crate::text::str_starts_with;
use vstd::prelude::*;

verus! {

/// Stands in for a missing user agent.
pub const NO_USER_AGENT: &'static str = "No User-Agent";

/// Stands in for an unknown source address.
pub const NO_SOURCE_IP: &'static str = "No Source IP";

/// Stands in for a missing session cookie.
pub const NO_COOKIE: &'static str = "No Cookie";

/// The path under which clients are fingerprinted.
pub const TRACK_PATH: &'static str = "/trackme";

/// The page shown to a client that has been seen before.
pub const TEMPLATE_KNOWN: &'static str = "trackme-known";

/// The page shown to a client that is new.
pub const TEMPLATE_UNKNOWN: &'static str = "trackme-unknown";

/// What the search for the nearest fingerprint came to: a new fingerprint
/// was written down, or a known one was found. Either way, its id.
#[derive(Clone, Debug, PartialEq, Eq)]
pub enum NnSearchResult {
    Created(String),
    Known(String),
}

impl NnSearchResult {
    /// The page to show, and the id to show on it.
    pub fn page(&self) -> (r: (&'static str, &String))
        ensures
            r.0@ == match *self {
                NnSearchResult::Known(_) => TEMPLATE_KNOWN@,
                NnSearchResult::Created(_) => TEMPLATE_UNKNOWN@,
            },
            *r.1 == match *self {
                NnSearchResult::Known(id) => id,
                NnSearchResult::Created(id) => id,
            },
    {
        match self {
            NnSearchResult::Known(id) => (TEMPLATE_KNOWN, id),
            NnSearchResult::Created(id) => (TEMPLATE_UNKNOWN, id),
        }
    }
}

/// The text of an optional value: its own, or the stand-in.
pub open spec fn text_or(value: Option<String>, stand_in: Seq<char>) -> Seq<char> {
    match value {
        Some(v) => v@,
        None => stand_in,
    }
}

/// The text that is embedded as the fingerprint of a request.
pub open spec fn document_of(
    user_agent: Option<String>,
    source_ip: Option<String>,
    session_id: Option<String>,
) -> Seq<char> {
    "user_agent: "@ + text_or(user_agent, NO_USER_AGENT@) + ", source_ip: "@ + text_or(
        source_ip,
        NO_SOURCE_IP@,
    ) + ", session_id: "@ + text_or(session_id, NO_COOKIE@)
}

/// Fingerprints the requests to the tracking path.
pub struct Fingerprinter;

impl Fingerprinter {
    /// The text that is embedded as the fingerprint of a request: its user
    /// agent, source address and session, each with a stand-in where the
    /// request does not carry it.
    pub fn document(
        user_agent: Option<String>,
        source_ip: Option<String>,
        session_id: Option<String>,
    ) -> (text: String)
        ensures
            text@ == document_of(user_agent, source_ip, session_id),
    {
        let mut text = String::from_str("user_agent: ");
        match &user_agent {
            Some(v) => text.append(v.as_str()),
            None => text.append(NO_USER_AGENT),
        }
        text.append(", source_ip: ");
        match &source_ip {
            Some(v) => text.append(v.as_str()),
            None => text.append(NO_SOURCE_IP),
        }
        text.append(", session_id: ");
        match &session_id {
            Some(v) => text.append(v.as_str()),
            None => text.append(NO_COOKIE),
        }
        text
    }

    /// Whether requests to this route are fingerprinted.
    pub fn tracks(route_path: &str) -> (r: bool)
        ensures
            r == TRACK_PATH@.is_prefix_of(route_path@),
    {
        str_starts_with(route_path, TRACK_PATH)
    }
}

} // verus!
