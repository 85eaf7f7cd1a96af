//! Network fetching -- what the library decides about requests.
//!
//! The HTTP client itself runs in the front end; here are the fetch
//! result, the errors, the HTTPS-only rule and the stylesheet URLs that a
//! page asks for.
use vstd::prelude::*;
use crate::dom::{Document, sheet_links_in};
use crate::text::{chars_of, push_chars, push_str, starts_with, starts_with_str, string_from_chars};
use crate::render::{decimal, decimal_chars};
use crate::url_util::{resolve_url, resolved};

verus! {

/// Why a fetch failed.
#[derive(Debug)]
pub enum FetchError {
    Request(String),
    InvalidUrl(String),
    Timeout(u64),
    HttpStatus { status: u16, url: String },
    HttpsRequired(String),
    Blocked(String),
}

/// The message of a fetch error.
pub open spec fn fetch_message(e: FetchError) -> Seq<char> {
    match e {
        FetchError::Request(s) => "request failed: "@ + s@,
        FetchError::InvalidUrl(s) => "invalid url: "@ + s@,
        FetchError::Timeout(secs) => "timeout after "@ + decimal(secs as nat) + "s"@,
        FetchError::HttpStatus { status, url } => "status "@ + decimal(status as nat) + ": "@ + url@,
        FetchError::HttpsRequired(s) => "HTTPS required but got HTTP url: "@ + s@,
        FetchError::Blocked(s) => "blocked by content filter: "@ + s@,
    }
}

impl FetchError {
    /// The message shown for this error.
    pub fn message(&self) -> (r: String)
        ensures
            r@ == fetch_message(*self),
    {
        let mut out: Vec<char>;
        match self {
            FetchError::Request(s) => {
                out = chars_of("request failed: ");
                push_str(&mut out, s.as_str());
            },
            FetchError::InvalidUrl(s) => {
                out = chars_of("invalid url: ");
                push_str(&mut out, s.as_str());
            },
            FetchError::Timeout(secs) => {
                out = chars_of("timeout after ");
                let d = decimal_chars(*secs);
                push_chars(&mut out, d.as_slice());
                out.push('s');
                assert(out@ =~= "timeout after "@ + decimal(*secs as nat) + "s"@) by {
                    reveal_strlit("s");
                }
            },
            FetchError::HttpStatus { status, url } => {
                out = chars_of("status ");
                let d = decimal_chars(*status as u64);
                push_chars(&mut out, d.as_slice());
                push_str(&mut out, ": ");
                push_str(&mut out, url.as_str());
            },
            FetchError::HttpsRequired(s) => {
                out = chars_of("HTTPS required but got HTTP url: ");
                push_str(&mut out, s.as_str());
            },
            FetchError::Blocked(s) => {
                out = chars_of("blocked by content filter: ");
                push_str(&mut out, s.as_str());
            },
        }
        string_from_chars(out.as_slice())
    }
}

/// Result of an HTTP fetch operation.
#[derive(Debug)]
pub struct FetchResult {
    /// The final URL after any redirects.
    pub url: String,
    /// HTTP status code.
    pub status: u16,
    /// Content-Type header value.
    pub content_type: String,
    /// Response body as a string.
    pub body: String,
    /// All response headers, as name-value pairs.
    pub headers: Vec<(String, String)>,
}

/// A request may go out: always, or, in HTTPS-only mode, unless the URL
/// is plain `http://`.
pub fn check_https(https_only: bool, url: &str) -> (r: Result<(), FetchError>)
    ensures
        match r {
            Ok(()) => !(https_only && starts_with(url@, "http://"@)),
            Err(e) => https_only && starts_with(url@, "http://"@) && (e matches FetchError::HttpsRequired(
                u,
            ) && u@ == url@),
        },
{
    let u = chars_of(url);
    if https_only && starts_with_str(u.as_slice(), "http://") {
        return Err(FetchError::HttpsRequired(url.to_owned()));
    }
    Ok(())
}

/// The URLs of the stylesheets that a page links, resolved against the
/// page's URL, in document order.
pub fn stylesheet_urls(page_url: &str, doc: &Document) -> (r: Vec<String>)
    ensures
        r@.len() == sheet_links_in(doc.root).len(),
        forall|i: int|
            0 <= i < r@.len() ==> (#[trigger] r@[i])@ == resolved(
                page_url@,
                sheet_links_in(doc.root)[i],
            ),
{
    let links = doc.stylesheet_links();
    let mut out: Vec<String> = Vec::new();
    let mut i: usize = 0;
    while i < links.len()
        invariant
            i <= links@.len(),
            links@.map_values(|s: String| s@) == sheet_links_in(doc.root),
            out@.len() == i,
            forall|k: int|
                0 <= k < i ==> (#[trigger] out@[k])@ == resolved(
                    page_url@,
                    sheet_links_in(doc.root)[k],
                ),
        decreases links@.len() - i,
    {
        assert(sheet_links_in(doc.root)[i as int] == links@[i as int]@);
        out.push(resolve_url(page_url, links[i].as_str()));
        i = i + 1;
    }
    out
}

} // verus!
