//! Requests and responses, as far as the decisions of the service go.
use vstd::prelude::*;
use crate::entities::credentials::{Credentials, CredentialsView};

verus! {

/// A GET request to send: the address, the header fields, and what to
/// present as credentials (a token as a bearer token, a name and password
/// as basic authentication, nothing for none).
pub struct HttpRequest {
    pub url: String,
    pub headers: Vec<(String, String)>,
    pub credentials: Credentials,
}

/// A request as a mathematical object.
pub struct HttpRequestView {
    pub url: Seq<char>,
    pub headers: Seq<(Seq<char>, Seq<char>)>,
    pub credentials: CredentialsView,
}

impl View for HttpRequest {
    type V = HttpRequestView;

    open spec fn view(&self) -> HttpRequestView {
        HttpRequestView {
            url: self.url@,
            headers: Seq::new(self.headers@.len(), |i: int| (self.headers@[i].0@, self.headers@[i].1@)),
            credentials: self.credentials@,
        }
    }
}

/// Whether a status code says that the request succeeded.
pub open spec fn is_success(status: u16) -> bool {
    200 <= status < 300
}

/// Whether `status` says that the request succeeded.
pub fn succeeded(status: u16) -> (ok: bool)
    ensures
        ok == is_success(status),
{
    200 <= status && status < 300
}

/// Whether a text is an absolute URL.
pub uninterp spec fn url_parses(url: Seq<char>) -> bool;

/// Whether `url` is an absolute URL.
///
/// Trusted: wraps `reqwest::Url::parse`, whose verdict depends on the text
/// alone.
#[verifier::external_body]
fn parses_as_url(url: &str) -> (ok: bool)
    ensures
        ok == url_parses(url@),
{
    reqwest::Url::parse(url).is_ok()
}

/// Whether `url` is an absolute URL.
pub fn is_url(url: &str) -> (ok: bool)
    ensures
        ok == url_parses(url@),
{
    parses_as_url(url)
}

/// The target of the link with the relation `rel` in the value `header` of
/// a `Link` header: nothing where the header cannot be read as one, nothing
/// inside where it holds no link with that relation.
pub uninterp spec fn link_target(header: Seq<char>, rel: Seq<char>) -> Option<Option<Seq<char>>>;

/// The target of the link with the relation `rel` in `header`.
///
/// Trusted: wraps `parse_link_header::parse_with_rel`, which reads the value
/// of a `Link` header into its links by relation and fails where a link has
/// no relation or is malformed; the target is the field `raw_uri` of the
/// link found under `rel`.
#[verifier::external_body]
fn link_with_rel(header: &str, rel: &str) -> (target: Option<Option<String>>)
    ensures
        match link_target(header@, rel@) {
            None => target is None,
            Some(None) => target == Some(None::<String>),
            Some(Some(uri)) => target matches Some(Some(t)) && t@ == uri,
        },
{
    parse_link_header::parse_with_rel(header).ok().map(
        |links| links.get(rel).map(|link| link.raw_uri.clone()),
    )
}

/// The address of the page that follows, as the `Link` header `header`
/// names it under the relation `next`.
pub fn next_link(header: &str) -> (target: Option<Option<String>>)
    ensures
        match link_target(header@, "next"@) {
            None => target is None,
            Some(None) => target == Some(None::<String>),
            Some(Some(uri)) => target matches Some(Some(t)) && t@ == uri,
        },
{
    link_with_rel(header, "next")
}

} // verus!
