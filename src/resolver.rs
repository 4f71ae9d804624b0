use vstd::prelude::*;
use crate::error::PlayError;
use crate::policy::{DomainPolicy, PolicyDecision};
use crate::query::QueryType;
use crate::text::{contains_seq, contains_text, same_text};

verus! {

/// What `url::Url::parse` and `Url::host_str` give for a string: `None` when
/// it is not an absolute URL, `Some(None)` for a URL without a host,
/// `Some(Some(h))` for one whose host is `h`.
pub uninterp spec fn url_host(s: Seq<char>) -> Option<Option<Seq<char>>>;

pub open spec fn host_view(h: Option<Option<String>>) -> Option<Option<Seq<char>>> {
    match h {
        None => None,
        Some(None) => Some(None),
        Some(Some(s)) => Some(Some(s@)),
    }
}

/// Relies on `url::Url::parse`, which parses an absolute URL or fails, and
/// on `url::Url::host_str`, the host of the parsed URL if it has one.
#[verifier::external_body]
fn parse_url_host(raw: &str) -> (r: Option<Option<String>>)
    ensures
        host_view(r) == url_host(raw@),
{
    match url::Url::parse(raw) {
        Ok(u) => match u.host_str() {
            Some(h) => Some(Some(h.to_string())),
            None => Some(None),
        },
        Err(_) => None,
    }
}

/// Host of the streaming service whose share links are handed to its client.
pub open spec fn streaming_host() -> Seq<char> {
    "open.spotify.com"@
}

/// Domain against which keyword searches are checked.
pub open spec fn search_domain() -> Seq<char> {
    "youtube.com"@
}

/// Marker of a playlist inside a link.
pub open spec fn playlist_marker() -> Seq<char> {
    "list="@
}

/// A resolved command input: a query ready for queueing, or a share link for
/// the streaming-service client.
#[derive(Debug)]
pub enum Resolution {
    Query(QueryType),
    StreamingLink(String),
}

/// The host is that of the streaming service.
pub open spec fn is_streaming(host: Option<Option<Seq<char>>>) -> bool {
    host == Some(Some(streaming_host()))
}

/// The input is a link with a host (as opposed to a keyword search).
pub open spec fn is_link(host: Option<Option<Seq<char>>>) -> bool {
    host matches Some(Some(_))
}

/// The domain that the policy is asked about: the link's host, or the search
/// domain for keyword searches (no URL, or a URL without a host).
pub open spec fn checked_domain(host: Option<Option<Seq<char>>>) -> Seq<char> {
    match host {
        Some(Some(h)) => h,
        _ => search_domain(),
    }
}

/// The result of resolving `raw`, whose parse gave `host`, under `policy`,
/// with or without a session of the streaming-service client.
pub open spec fn resolution_ok(
    r: Result<Resolution, PlayError>,
    raw: Seq<char>,
    host: Option<Option<Seq<char>>>,
    policy: DomainPolicy,
    session: bool,
) -> bool {
    if is_streaming(host) {
        if session {
            r matches Ok(Resolution::StreamingLink(s)) && s@ == raw
        } else {
            r == Err::<Resolution, PlayError>(PlayError::AuthUnavailable)
        }
    } else if policy.rejects_domain(checked_domain(host)) {
        r matches Err(PlayError::Rejected(d)) && d@ == checked_domain(host)
    } else if !is_link(host) {
        r matches Ok(Resolution::Query(QueryType::Keywords(s))) && s@ == raw
    } else if contains_seq(raw, playlist_marker()) {
        r matches Ok(Resolution::Query(QueryType::PlaylistLink(s))) && s@ == raw
    } else {
        r matches Ok(Resolution::Query(QueryType::VideoLink(s))) && s@ == raw
    }
}

/// Resolves `raw` given what URL parsing gave for it (`host`, as
/// `parse_url_host` returns it).
pub fn classify_query(
    raw: &str,
    host: &Option<Option<String>>,
    policy: &DomainPolicy,
    session: bool,
) -> (r: Result<Resolution, PlayError>)
    ensures
        resolution_ok(r, raw@, host_view(*host), *policy, session),
{
    let domain: &str = match host {
        Some(Some(h)) => {
            if same_text(h.as_str(), "open.spotify.com") {
                if session {
                    return Ok(Resolution::StreamingLink(raw.to_owned()));
                } else {
                    return Err(PlayError::AuthUnavailable);
                }
            }
            h.as_str()
        },
        _ => "youtube.com",
    };
    match policy.evaluate(domain) {
        PolicyDecision::Reject(d) => {
            return Err(PlayError::Rejected(d));
        },
        PolicyDecision::Allow => {},
    }
    match host {
        Some(Some(_)) => {
            if contains_text(raw, "list=") {
                Ok(Resolution::Query(QueryType::PlaylistLink(raw.to_owned())))
            } else {
                Ok(Resolution::Query(QueryType::VideoLink(raw.to_owned())))
            }
        },
        _ => Ok(Resolution::Query(QueryType::Keywords(raw.to_owned()))),
    }
}

/// Resolves a command's text: keyword search, link or streaming-service share
/// link, with the guild's domain policy applied.
pub fn resolve_query(raw: &str, policy: &DomainPolicy, session: bool) -> (r: Result<
    Resolution,
    PlayError,
>)
    ensures
        resolution_ok(r, raw@, url_host(raw@), *policy, session),
{
    let host = parse_url_host(raw);
    classify_query(raw, &host, policy, session)
}

} // verus!
