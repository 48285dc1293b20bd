//! How the service talks to the remote API: the shape of its requests, what
//! it makes of the responses, and how it walks through pages.
use vstd::prelude::*;
use crate::entities::credentials::{Credentials, CredentialsView};
use crate::errors::{
    system, system_error, user, user_error, user_with_internal, Error, ErrorView,
};
use crate::http::{
    is_success, is_url, link_target, next_link, succeeded, url_parses, HttpRequest, HttpRequestView,
};
use crate::text::{decimal_text, push_decimal, surround};

verus! {

/// The header fields of every request to the API.
pub open spec fn api_headers() -> Seq<(Seq<char>, Seq<char>)> {
    seq![
        ("Accept"@, "application/vnd.github.v3+json"@),
        ("X-GitHub-Api-Version"@, "2022-11-28"@),
        ("User-Agent"@, "SierraSoftworks/github-backup"@),
    ]
}

/// The error for an address that is no URL.
pub open spec fn invalid_url(url: Seq<char>) -> ErrorView {
    user_error(
        "Unable to parse GitHub URL '"@ + url + "' as a valid URL."@,
        "Make sure that you have configured your GitHub API correctly."@,
    )
}

/// The request for `url`, or the error where `url` is no URL.
pub open spec fn api_request(url: Seq<char>, credentials: CredentialsView) -> Result<
    HttpRequestView,
    ErrorView,
> {
    if url_parses(url) {
        Ok(HttpRequestView { url, headers: api_headers(), credentials })
    } else {
        Err(invalid_url(url))
    }
}

/// The error for a response that rejects the credentials.
pub open spec fn token_rejected() -> ErrorView {
    user_error(
        "The access token you have provided was rejected by the GitHub API."@,
        "Make sure that your GitHub token is valid and has not expired."@,
    )
}

/// What a response with the status `status` and the body `body` means: no
/// error for a success, a rejected token for 401, and for anything else
/// an error that carries the status and the body.
pub open spec fn response_error(status: u16, body: Seq<char>) -> Option<ErrorView> {
    if is_success(status) {
        None
    } else if status == 401 {
        Some(token_rejected())
    } else {
        Some(
            ErrorView {
                cause: Some(body),
                status_code: Some(status),
                ..user_error(
                    "The GitHub API returned an error response with status code "@ + decimal_text(
                        status as nat,
                    ) + "."@,
                    "Please check the error message below and try again."@,
                )
            },
        )
    }
}

/// The error for a body that is not what was asked for.
pub open spec fn unparseable(url: Seq<char>) -> ErrorView {
    system_error(
        "Unable to parse GitHub response into the expected structure when requesting '"@ + url
            + "'."@,
        "Please report this issue to us on GitHub."@,
    )
}

/// The error that ends a listing when the backup is cancelled.
pub open spec fn cancelled_error() -> ErrorView {
    user_error(
        "The backup operation was cancelled by the user. Only partial data may have been backed up."@,
        "Allow the backup to complete fully before cancelling again."@,
    )
}

/// The error for a `Link` header that cannot be read.
pub open spec fn unreadable_link() -> ErrorView {
    system_error(
        "Unable to parse GitHub's Link header, which will result in pagination failing to work correctly."@,
        "Please report this issue to us on GitHub."@,
    )
}

/// The `Link` header of a response.
pub enum LinkHeader {
    /// The response has none.
    Absent,
    /// It holds characters that are no text.
    Unreadable,
    /// Its value.
    Value(String),
}

/// The address of the next page that a `Link` header names, nothing where
/// it names none, or the error where it cannot be read.
pub open spec fn next_page(link: LinkHeader) -> Result<Option<Seq<char>>, ErrorView> {
    match link {
        LinkHeader::Absent => Ok(None),
        LinkHeader::Unreadable => Err(unreadable_link()),
        LinkHeader::Value(v) => match link_target(v@, "next"@) {
            None => Err(unreadable_link()),
            Some(target) => Ok(target),
        },
    }
}

/// The client of the remote API, as far as its decisions go.
#[derive(Clone, Copy, Debug, Default)]
pub struct GitHubClient;

impl GitHubClient {
    /// The GET request for `url` with `credentials`; a user error where
    /// `url` is no URL.
    pub fn request(&self, url: &str, credentials: &Credentials) -> (r: Result<HttpRequest, Error>)
        ensures
            match api_request(url@, credentials@) {
                Ok(request) => r matches Ok(q) && q@ == request,
                Err(e) => r matches Err(x) && x@ == e,
            },
    {
        if !is_url(url) {
            return Err(
                user(
                    surround("Unable to parse GitHub URL '", url, "' as a valid URL."),
                    "Make sure that you have configured your GitHub API correctly.",
                ),
            );
        }
        let mut headers: Vec<(String, String)> = Vec::new();
        headers.push((String::from_str("Accept"), String::from_str("application/vnd.github.v3+json")));
        headers.push((String::from_str("X-GitHub-Api-Version"), String::from_str("2022-11-28")));
        headers.push((String::from_str("User-Agent"), String::from_str("SierraSoftworks/github-backup")));
        let request = HttpRequest {
            url: String::from_str(url),
            headers,
            credentials: credentials.duplicate(),
        };
        proof {
            assert(request@.headers =~= api_headers());
        }
        Ok(request)
    }

    /// What the response with the status `status` means; `body` is its
    /// body as text, which is looked at for a failure only.
    pub fn check(&self, status: u16, body: &str) -> (r: Result<(), Error>)
        ensures
            match response_error(status, body@) {
                None => r is Ok,
                Some(e) => r matches Err(x) && x@ == e,
            },
    {
        if succeeded(status) {
            Ok(())
        } else if status == 401 {
            Err(
                user(
                    String::from_str(
                        "The access token you have provided was rejected by the GitHub API.",
                    ),
                    "Make sure that your GitHub token is valid and has not expired.",
                ),
            )
        } else {
            let mut message = String::from_str(
                "The GitHub API returned an error response with status code ",
            );
            push_decimal(&mut message, status as usize);
            message.append(".");
            Err(
                user_with_internal(
                    message,
                    "Please check the error message below and try again.",
                    String::from_str(body),
                ).with_status(status),
            )
        }
    }

    /// The error for a body, fetched from `url`, that is not what was
    /// asked for.
    pub fn undecodable(&self, url: &str) -> (e: Error)
        ensures
            e@ == unparseable(url@),
    {
        system(
            surround(
                "Unable to parse GitHub response into the expected structure when requesting '",
                url,
                "'.",
            ),
            "Please report this issue to us on GitHub.",
        )
    }

    /// A walk through the pages of the listing at `url`.
    pub fn get_paginated(&self, url: &str, credentials: &Credentials) -> (pages: Paginator)
        ensures
            pages.upcoming() == Some(url@),
            pages.presented() == credentials@,
    {
        Paginator { next: Some(String::from_str(url)), credentials: credentials.duplicate() }
    }
}

/// What a walk through pages does next.
pub enum PageStep {
    /// Send the request, and hand the response to `received`.
    Fetch(HttpRequest),
    /// The listing ends with this error.
    Fail(Error),
    /// The listing has ended.
    Finished,
}

/// A walk through the pages of a listing. The pages are fetched one after
/// the other, since each names the next.
pub struct Paginator {
    next: Option<String>,
    credentials: Credentials,
}

impl Paginator {
    /// The address of the page that is fetched next, if any is left.
    pub closed spec fn upcoming(&self) -> Option<Seq<char>> {
        match self.next {
            Some(url) => Some(url@),
            None => None,
        }
    }

    /// The credentials that the requests present.
    pub closed spec fn presented(&self) -> CredentialsView {
        self.credentials@
    }

    /// What is to be done next, `cancelled` being what the cancellation
    /// flag reads now: nothing where no page is left; where one is, the
    /// listing ends with an error if the backup was cancelled or the
    /// address is no URL, and the page is fetched otherwise.
    pub fn poll(&mut self, cancelled: bool) -> (step: PageStep)
        ensures
            final(self).presented() == old(self).presented(),
            match old(self).upcoming() {
                None => step is Finished && final(self).upcoming() is None,
                Some(url) => if cancelled {
                    &&& step matches PageStep::Fail(e)
                    &&& e@ == cancelled_error()
                    &&& final(self).upcoming() is None
                } else {
                    match api_request(url, old(self).presented()) {
                        Ok(request) => {
                            &&& step matches PageStep::Fetch(q)
                            &&& q@ == request
                            &&& final(self).upcoming() == old(self).upcoming()
                        },
                        Err(error) => {
                            &&& step matches PageStep::Fail(e)
                            &&& e@ == error
                            &&& final(self).upcoming() is None
                        },
                    }
                },
            },
    {
        let url = match &self.next {
            None => {
                return PageStep::Finished;
            },
            Some(url) => url.clone(),
        };
        if cancelled {
            self.next = None;
            return PageStep::Fail(
                user(
                    String::from_str(
                        "The backup operation was cancelled by the user. Only partial data may have been backed up.",
                    ),
                    "Allow the backup to complete fully before cancelling again.",
                ),
            );
        }
        match GitHubClient.request(url.as_str(), &self.credentials) {
            Ok(request) => PageStep::Fetch(request),
            Err(e) => {
                self.next = None;
                PageStep::Fail(e)
            },
        }
    }

    /// Takes note of the response to the last request: its status, its
    /// body as text (looked at for a failure only) and its `Link` header.
    /// After a success the walk goes on with the page that the header
    /// names as next, or ends where it names none; after an error it ends.
    pub fn received(&mut self, status: u16, body: &str, link: LinkHeader) -> (r: Result<(), Error>)
        ensures
            final(self).presented() == old(self).presented(),
            match response_error(status, body@) {
                Some(e) => r matches Err(x) && x@ == e && final(self).upcoming() is None,
                None => match next_page(link) {
                    Ok(next) => r is Ok && final(self).upcoming() == next,
                    Err(e) => r matches Err(x) && x@ == e && final(self).upcoming() is None,
                },
            },
    {
        self.next = None;
        match GitHubClient.check(status, body) {
            Ok(()) => {},
            Err(e) => {
                return Err(e);
            },
        }
        let unreadable = "Unable to parse GitHub's Link header, which will result in pagination failing to work correctly.";
        match link {
            LinkHeader::Absent => Ok(()),
            LinkHeader::Unreadable => Err(
                system(String::from_str(unreadable), "Please report this issue to us on GitHub."),
            ),
            LinkHeader::Value(v) => match next_link(v.as_str()) {
                None => Err(
                    system(
                        String::from_str(unreadable),
                        "Please report this issue to us on GitHub.",
                    ),
                ),
                Some(target) => {
                    self.next = target;
                    Ok(())
                },
            },
        }
    }

    /// Ends the walk, as after a page that could not be decoded.
    pub fn stop(&mut self)
        ensures
            final(self).upcoming() is None,
            final(self).presented() == old(self).presented(),
    {
        self.next = None;
    }
}

} // verus!
