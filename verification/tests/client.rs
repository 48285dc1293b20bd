use github_backup::entities::Credentials;
use github_backup::helpers::client::{GitHubClient, LinkHeader, PageStep};
use github_backup::http::{is_url, next_link, succeeded};

#[test]
fn test_request_shape() {
    let request = GitHubClient
        .request("https://api.github.com/user/repos", &Credentials::Token("t".to_string()))
        .unwrap();
    assert_eq!(request.url, "https://api.github.com/user/repos");
    assert_eq!(
        request.headers,
        vec![
            ("Accept".to_string(), "application/vnd.github.v3+json".to_string()),
            ("X-GitHub-Api-Version".to_string(), "2022-11-28".to_string()),
            ("User-Agent".to_string(), "SierraSoftworks/github-backup".to_string()),
        ]
    );
    assert!(request.credentials == Credentials::Token("t".to_string()));
    let e = GitHubClient.request("not a url", &Credentials::Anonymous).err().unwrap();
    assert!(e.is_user());
    assert_eq!(e.to_string(), "Unable to parse GitHub URL 'not a url' as a valid URL.");
}

#[test]
fn test_urls() {
    assert!(is_url("https://api.github.com/users/octocat/repos?page=2"));
    assert!(!is_url("/users/octocat/repos"));
    assert!(!is_url(""));
}

#[test]
fn test_statuses() {
    for ok in [200u16, 201, 204, 299] {
        assert!(succeeded(ok));
        assert!(GitHubClient.check(ok, "ignored").is_ok());
    }
    for bad in [100u16, 199, 300, 404, 500] {
        assert!(!succeeded(bad));
    }
    let e = GitHubClient.check(401, "{}").unwrap_err();
    assert!(e.is_user());
    assert_eq!(e.to_string(), "The access token you have provided was rejected by the GitHub API.");
    assert_eq!(e.cause, None);
    assert_eq!(e.status_code, None);
    let e = GitHubClient.check(404, "{\"message\":\"Not Found\"}").unwrap_err();
    assert!(e.is_user());
    assert_eq!(e.to_string(), "The GitHub API returned an error response with status code 404.");
    assert_eq!(e.cause.as_deref(), Some("{\"message\":\"Not Found\"}"));
    assert_eq!(e.status_code, Some(404));
    let e = GitHubClient.undecodable("https://x.test/y");
    assert!(!e.is_user());
    assert_eq!(
        e.to_string(),
        "Unable to parse GitHub response into the expected structure when requesting 'https://x.test/y'."
    );
}

#[test]
fn test_link_header() {
    let header = "<https://api.github.com/repositories/41986369/contributors?page=2>; rel=\"next\", <https://api.github.com/repositories/41986369/contributors?page=14>; rel=\"last\"";
    assert_eq!(
        next_link(header),
        Some(Some("https://api.github.com/repositories/41986369/contributors?page=2".to_string()))
    );
    let last = "<https://api.github.com/repositories/41986369/contributors?page=14>; rel=\"last\"";
    assert_eq!(next_link(last), Some(None));
    assert_eq!(next_link("<https://api.github.com/x?page=2>"), None);
}

#[test]
fn test_pagination() {
    let creds = Credentials::Token("t".to_string());
    let mut pages = GitHubClient.get_paginated("https://api.github.com/user/repos", &creds);
    let first = match pages.poll(false) {
        PageStep::Fetch(request) => request,
        _ => panic!("expected a request"),
    };
    assert_eq!(first.url, "https://api.github.com/user/repos");
    assert!(first.credentials == creds);
    let link = LinkHeader::Value("<https://api.github.com/user/repos?page=2>; rel=\"next\"".to_string());
    assert!(pages.received(200, "", link).is_ok());
    match pages.poll(false) {
        PageStep::Fetch(request) => assert_eq!(request.url, "https://api.github.com/user/repos?page=2"),
        _ => panic!("expected a request"),
    }
    assert!(pages.received(200, "", LinkHeader::Absent).is_ok());
    assert!(matches!(pages.poll(false), PageStep::Finished));
    assert!(matches!(pages.poll(true), PageStep::Finished));
}

#[test]
fn test_pagination_ends_on_cancel_and_errors() {
    let creds = Credentials::Anonymous;
    let mut pages = GitHubClient.get_paginated("https://api.github.com/user/repos", &creds);
    match pages.poll(true) {
        PageStep::Fail(e) => {
            assert!(e.is_user());
            assert_eq!(
                e.to_string(),
                "The backup operation was cancelled by the user. Only partial data may have been backed up."
            );
        }
        _ => panic!("expected the listing to end"),
    }
    assert!(matches!(pages.poll(false), PageStep::Finished));

    let mut pages = GitHubClient.get_paginated("nonsense", &creds);
    assert!(matches!(pages.poll(false), PageStep::Fail(_)));
    assert!(matches!(pages.poll(false), PageStep::Finished));

    let mut pages = GitHubClient.get_paginated("https://api.github.com/user/repos", &creds);
    assert!(matches!(pages.poll(false), PageStep::Fetch(_)));
    let e = pages.received(500, "boom", LinkHeader::Absent).unwrap_err();
    assert_eq!(e.cause.as_deref(), Some("boom"));
    assert!(matches!(pages.poll(false), PageStep::Finished));

    let mut pages = GitHubClient.get_paginated("https://api.github.com/user/repos", &creds);
    assert!(matches!(pages.poll(false), PageStep::Fetch(_)));
    let e = pages.received(200, "", LinkHeader::Unreadable).unwrap_err();
    assert!(!e.is_user());
    assert!(matches!(pages.poll(false), PageStep::Finished));

    let mut pages = GitHubClient.get_paginated("https://api.github.com/user/repos", &creds);
    assert!(matches!(pages.poll(false), PageStep::Fetch(_)));
    let e = pages.received(200, "", LinkHeader::Value("<https://api.github.com/x>".to_string())).unwrap_err();
    assert!(!e.is_user());
    assert!(matches!(pages.poll(false), PageStep::Finished));

    let mut pages = GitHubClient.get_paginated("https://api.github.com/user/repos", &creds);
    assert!(matches!(pages.poll(false), PageStep::Fetch(_)));
    pages.stop();
    assert!(matches!(pages.poll(false), PageStep::Finished));
}
