use github_backup::entities::{BackupEntity, Credentials, Metadata, MetadataSource};
use github_backup::filter::{Filter, FilterValue, Filterable, Number};
use github_backup::helpers::github::{
    GistFile, GitHubArtifactKind, GitHubGist, GitHubRelease, GitHubReleaseAsset, GitHubRepo,
    GitHubRepoSourceKind, GitHubUser,
};
use github_backup::policy::BackupPolicy;
use github_backup::sources::{
    listing_address, refspecs_for, BackupSource, GitHubGistSource, GitHubReleasesSource, GitHubRepoSource,
};
use github_backup::time::Timestamp;

fn user() -> GitHubUser {
    GitHubUser {
        login: "octocat".to_string(),
        id: 1,
        node_id: "MDQ6VXNlcjE=".to_string(),
        avatar_url: String::new(),
        gravatar_id: String::new(),
        url: "https://api.github.com/users/octocat".to_string(),
        html_url: "https://github.com/octocat".to_string(),
        type_: "User".to_string(),
        site_admin: false,
    }
}

fn repo(name: &str, fork: bool, size: u64) -> GitHubRepo {
    GitHubRepo {
        id: 1296269,
        node_id: "MDEwOlJlcG9zaXRvcnkxMjk2MjY5".to_string(),
        name: name.to_string(),
        full_name: format!("octocat/{}", name),
        owner: user(),
        description: None,
        private: false,
        fork,
        html_url: format!("https://github.com/octocat/{}", name),
        url: format!("https://api.github.com/repos/octocat/{}", name),
        clone_url: format!("https://github.com/octocat/{}.git", name),
        homepage: None,
        language: None,
        forks_count: 9,
        stargazers_count: 80,
        watchers_count: 80,
        size,
        default_branch: "master".to_string(),
        open_issues_count: 0,
        is_template: false,
        topics: vec![],
        has_issues: true,
        has_projects: true,
        has_wiki: true,
        has_pages: false,
        has_downloads: true,
        has_discussions: false,
        archived: false,
        disabled: false,
        pushed_at: Timestamp::new(1296068803, 0),
        created_at: Timestamp::new(1296068472, 0),
        updated_at: Timestamp::new(1296069283, 0),
    }
}

fn asset(id: u64, name: &str, state: &str) -> GitHubReleaseAsset {
    GitHubReleaseAsset {
        url: String::new(),
        browser_download_url: String::new(),
        id,
        node_id: String::new(),
        name: name.to_string(),
        label: None,
        state: state.to_string(),
        content_type: "application/zip".to_string(),
        size: 1024,
        download_count: 42,
        created_at: Timestamp::new(100, 0),
        updated_at: Timestamp::new(200, 0),
        uploader: user(),
    }
}

fn release(tag: &str, tarball: Option<&str>, assets: Vec<GitHubReleaseAsset>) -> GitHubRelease {
    GitHubRelease {
        url: String::new(),
        html_url: String::new(),
        assets_url: String::new(),
        tarball_url: tarball.map(|t| t.to_string()),
        zipball_url: None,
        id: 1,
        node_id: String::new(),
        tag_name: tag.to_string(),
        target_commitish: "master".to_string(),
        name: tag.to_string(),
        body: None,
        draft: false,
        prerelease: true,
        created_at: Timestamp::new(50, 0),
        published_at: Some(Timestamp::new(60, 0)),
        author: user(),
        assets,
    }
}

fn policy(kind: &str, from: &str, properties: &[(&str, &str)]) -> BackupPolicy {
    BackupPolicy {
        kind: kind.to_string(),
        from: from.to_string(),
        to: "/tmp".to_string(),
        credentials: Credentials::Token("secret".to_string()),
        filter: Filter::default(),
        properties: properties.iter().map(|(k, v)| (k.to_string(), v.to_string())).collect(),
    }
}

#[test]
fn check_name_repo() {
    assert_eq!(GitHubRepoSource::repo().kind(), GitHubArtifactKind::Repo.as_str());
}

#[test]
fn check_name_gist() {
    assert_eq!(GitHubGistSource::gist().kind(), GitHubArtifactKind::Gist.as_str());
}

#[test]
fn check_name() {
    assert_eq!(GitHubReleasesSource::default().kind(), "github/release");
}

#[test]
fn test_artifact_kinds() {
    for (text, kind, url) in [
        ("github/repo", GitHubArtifactKind::Repo, "repos"),
        ("github/release", GitHubArtifactKind::Release, "repos"),
        ("github/gist", GitHubArtifactKind::Gist, "gists"),
    ] {
        assert_eq!(GitHubArtifactKind::from_name(text), Some(kind));
        assert_eq!(kind.as_str(), text);
        assert_eq!(kind.api_endpoint(), url);
    }
    assert_eq!(GitHubArtifactKind::from_name("github/star"), None);
}

#[test]
fn test_source_kind_api_url() {
    let repo_kind = GitHubArtifactKind::Repo;
    let release_kind = GitHubArtifactKind::Release;
    let gist_kind = GitHubArtifactKind::Gist;
    let cases = [
        (GitHubRepoSourceKind::CurrentUser, repo_kind, "user/repos"),
        (GitHubRepoSourceKind::CurrentUser, release_kind, "user/repos"),
        (GitHubRepoSourceKind::CurrentUser, gist_kind, "gists"),
        (GitHubRepoSourceKind::User("octocat".to_string()), repo_kind, "users/octocat/repos"),
        (GitHubRepoSourceKind::User("octocat".to_string()), gist_kind, "users/octocat/gists"),
        (GitHubRepoSourceKind::Org("octocat".to_string()), repo_kind, "orgs/octocat/repos"),
        (GitHubRepoSourceKind::Starred, repo_kind, "user/starred"),
        (GitHubRepoSourceKind::Starred, gist_kind, "gists/starred"),
        (GitHubRepoSourceKind::Repo("octocat".to_string()), repo_kind, "repos/octocat"),
        (GitHubRepoSourceKind::Gist("abcd".to_string()), gist_kind, "gists/abcd"),
    ];
    for (source, artifact, expected) in cases {
        assert_eq!(source.api_endpoint(artifact), expected);
    }
}

#[test]
fn test_deserialize_gh_repo_source_kind() {
    let cases = [
        ("user", GitHubRepoSourceKind::CurrentUser),
        ("users/notheotherben", GitHubRepoSourceKind::User("notheotherben".into())),
        ("orgs/sierrasoftworks", GitHubRepoSourceKind::Org("sierrasoftworks".into())),
        ("repos/sierrasoftworks/github-backup", GitHubRepoSourceKind::Repo("sierrasoftworks/github-backup".into())),
        ("gists/abcd", GitHubRepoSourceKind::Gist("abcd".into())),
        ("starred", GitHubRepoSourceKind::Starred),
    ];
    for (text, expected) in cases {
        let kind: GitHubRepoSourceKind = text.parse().unwrap();
        assert_eq!(kind, expected);
    }
    for bad in ["", "users", "users/", "orgs/", "repos/a", "repos/a/", "gists/", "user/x", "starred/x", "users/a/b", "notheotherben"] {
        let e = GitHubRepoSourceKind::parse(bad).unwrap_err();
        assert!(e.is_user());
        assert_eq!(
            e.to_string(),
            format!("The 'from' declaration '{}' was not valid for a GitHub repository source.", bad)
        );
    }
}

#[test]
fn validation_repo() {
    let source = GitHubRepoSource::repo();
    for (from, success) in [
        ("user", true),
        ("users/notheotherben", true),
        ("orgs/sierrasoftworks", true),
        ("notheotherben", false),
        ("sierrasoftworks/github-backup", false),
        ("users/notheotherben/repos", false),
        ("starred", true),
    ] {
        assert_eq!(source.validate(&policy("github/repo", from, &[])).is_ok(), success, "{}", from);
    }
}

#[test]
fn validation_gist() {
    let source = GitHubGistSource::gist();
    for (from, success) in [
        ("user", true),
        ("users/notheotherben", true),
        ("gists/d4caf959fb7824a9855c", true),
        ("starred", true),
        ("orgs/sierrasoftworks", false),
        ("gists/", false),
    ] {
        assert_eq!(source.validate(&policy("github/gist", from, &[])).is_ok(), success, "{}", from);
    }
    let e = source.validate(&policy("github/gist", "orgs/acme", &[])).unwrap_err();
    assert!(e.is_user());
    assert_eq!(e.to_string(), "Your 'from' target 'orgs/acme' is not valid for 'kind' 'github/gist'.");
}

#[test]
fn validation() {
    let source = GitHubReleasesSource::default();
    for (from, success) in [
        ("users/notheotherben", true),
        ("orgs/sierrasoftworks", true),
        ("notheotherben", false),
        ("sierrasoftworks/github-backup", false),
        ("users/notheotherben/repos", false),
        ("starred", false),
    ] {
        assert_eq!(source.validate(&policy("github/release", from, &[])).is_ok(), success, "{}", from);
    }
    let e = source.validate(&policy("github/release", "starred", &[])).unwrap_err();
    assert_eq!(e.to_string(), "Your 'from' target 'starred' is not valid for 'kind' 'github/release'.");
    assert_eq!(e.advice, "You cannot use starred to backup releases.");
}

#[test]
fn test_listing_addresses() {
    let p = policy("github/repo", "users/octocat", &[]);
    assert_eq!(listing_address(&p, "users/octocat/repos"), "https://api.github.com/users/octocat/repos");
    let p = policy(
        "github/repo",
        "users/octocat",
        &[("api_url", "https://github.example.com/api/v3//"), ("query", "type=owner&per_page=5")],
    );
    assert_eq!(
        listing_address(&p, "users/octocat/repos"),
        "https://github.example.com/api/v3/users/octocat/repos?type=owner&per_page=5"
    );
    let p = policy("github/repo", "user", &[("query", "a=b??")]);
    assert_eq!(listing_address(&p, "user/repos"), "https://api.github.com/user/repos?a=b");
    assert_eq!(refspecs_for(&p), None);
    let p = policy("github/repo", "user", &[("refspecs", "+refs/heads/*:refs/heads/*,+refs/tags/*:refs/tags/*")]);
    assert_eq!(
        refspecs_for(&p),
        Some(vec!["+refs/heads/*:refs/heads/*".to_string(), "+refs/tags/*:refs/tags/*".to_string()])
    );
}

#[test]
fn test_plans() {
    let source = GitHubRepoSource::repo();
    let plan = source.plan(&policy("github/repo", "repos/octocat/hello", &[])).unwrap();
    assert_eq!(plan.url, "https://api.github.com/repos/octocat/hello");
    assert!(plan.single);
    let plan = source.plan(&policy("github/repo", "starred", &[])).unwrap();
    assert_eq!(plan.url, "https://api.github.com/user/starred");
    assert!(!plan.single);
    assert!(source.plan(&policy("github/repo", "octocat", &[])).is_err());

    let gists = GitHubGistSource::gist();
    let plan = gists.plan(&policy("github/gist", "gists/abcd", &[])).unwrap();
    assert_eq!(plan.url, "https://api.github.com/gists/abcd");
    assert!(plan.single);
    let plan = gists.plan(&policy("github/gist", "user", &[])).unwrap();
    assert_eq!(plan.url, "https://api.github.com/gists");
    assert!(!plan.single);

    let releases = GitHubReleasesSource::default();
    let plan = releases.plan(&policy("github/release", "orgs/acme", &[("refspecs", "a,b")])).unwrap();
    assert_eq!(plan.url, "https://api.github.com/orgs/acme/repos");
    assert!(!plan.single);
    assert_eq!(plan.refspecs, Some(vec!["a".to_string(), "b".to_string()]));
}

#[test]
fn test_repo_entity() {
    let source = GitHubRepoSource::repo();
    let p = policy("github/repo", "users/octocat", &[("refspecs", "+refs/heads/main:refs/heads/main")]);
    let plan = source.plan(&p).unwrap();
    let entity = source.entity(&repo("Hello-World", true, 0), &p, &plan);
    assert_eq!(entity.name(), "octocat/Hello-World");
    assert_eq!(entity.clone_url, "https://github.com/octocat/Hello-World.git");
    assert!(entity.credentials == Credentials::Token("secret".to_string()));
    assert_eq!(entity.refspecs, Some(vec!["+refs/heads/main:refs/heads/main".to_string()]));
    assert_eq!(entity.get("repo.name"), "hello-world".into());
    assert_eq!(entity.get("repo.fullname"), "octocat/Hello-World".into());
    assert_eq!(entity.get("repo.private"), false.into());
    assert_eq!(entity.get("repo.public"), true.into());
    assert_eq!(entity.get("repo.fork"), true.into());
    assert_eq!(entity.get("repo.size"), 0u32.into());
    assert_eq!(entity.get("repo.archived"), false.into());
    assert_eq!(entity.get("repo.disabled"), false.into());
    assert_eq!(entity.get("repo.default_branch"), "master".into());
    assert_eq!(entity.get("repo.empty"), true.into());
    assert_eq!(entity.get("repo.template"), false.into());
    assert_eq!(entity.get("repo.forks"), 9u32.into());
    assert_eq!(entity.get("REPO.Stargazers"), FilterValue::Number(Number::from_u64(80)));
    assert_eq!(entity.get("repo.unknown"), FilterValue::Null);
    assert_eq!(repo("a", false, 1).to_string(), "octocat/a");
    assert_eq!(user().to_string(), "octocat");
}

#[test]
fn test_gist_entity() {
    let gist = GitHubGist {
        id: "aa5a315d61ae9438b18d".to_string(),
        node_id: String::new(),
        owner: Some(user()),
        description: None,
        public: true,
        url: String::new(),
        forks_url: String::new(),
        commits_url: String::new(),
        git_pull_url: "https://gist.github.com/aa5a315d61ae9438b18d.git".to_string(),
        git_push_url: String::new(),
        html_url: String::new(),
        comments: 3,
        comments_enabled: None,
        comments_url: String::new(),
        truncated: false,
        files: vec![
            (
                "hello.rb".to_string(),
                GistFile {
                    filename: "hello.rb".to_string(),
                    type_: "application/x-ruby".to_string(),
                    language: Some("Ruby".to_string()),
                    raw_url: String::new(),
                    size: 167,
                },
            ),
            (
                "notes".to_string(),
                GistFile {
                    filename: "notes".to_string(),
                    type_: "text/plain".to_string(),
                    language: None,
                    raw_url: String::new(),
                    size: 10,
                },
            ),
        ],
        forks: Some(2),
        created_at: "2010-04-14T02:15:15Z".to_string(),
        updated_at: "2011-06-20T11:34:15Z".to_string(),
    };
    let source = GitHubGistSource::gist();
    let p = policy("github/gist", "user", &[]);
    let plan = source.plan(&p).unwrap();
    let entity = source.entity(&gist, &p, &plan);
    assert_eq!(entity.name(), "aa5a315d61ae9438b18d");
    assert_eq!(entity.clone_url, "https://gist.github.com/aa5a315d61ae9438b18d.git");
    assert_eq!(entity.refspecs, None);
    assert_eq!(entity.get("gist.public"), true.into());
    assert_eq!(entity.get("gist.private"), false.into());
    assert_eq!(entity.get("gist.comments_enabled"), FilterValue::Null);
    assert_eq!(entity.get("gist.comments"), 3u32.into());
    assert_eq!(entity.get("gist.files"), 2u32.into());
    assert_eq!(entity.get("gist.forks"), 2u32.into());
    assert_eq!(entity.get("gist.file_names"), FilterValue::Tuple(vec!["hello.rb".into(), "notes".into()]));
    assert_eq!(entity.get("gist.languages"), FilterValue::Tuple(vec!["Ruby".into()]));
    assert_eq!(
        entity.get("gist.type"),
        FilterValue::Tuple(vec!["application/x-ruby".into(), "text/plain".into()])
    );
}

#[test]
fn test_release_files() {
    let source = GitHubReleasesSource::default();
    let p = policy("github/release", "users/octocat", &[]);
    let r = repo("Hello-World", false, 10);
    assert_eq!(
        source.releases_of(&r),
        Some("https://api.github.com/repos/octocat/Hello-World/releases".to_string())
    );
    let mut quiet = repo("quiet", false, 10);
    quiet.has_downloads = false;
    assert_eq!(source.releases_of(&quiet), None);

    let rel = release(
        "v1.0.0",
        Some("https://api.github.com/repos/octocat/Hello-World/tarball/v1.0.0"),
        vec![asset(7, "a.zip", "uploaded"), asset(8, "b.zip", "open"), asset(9, "c.zip", "uploaded")],
    );
    let archive = source.source_archive(&p, &r, &rel).unwrap();
    assert_eq!(archive.name, "octocat/Hello-World/v1.0.0/source.tar.gz");
    assert_eq!(archive.target_path(), "octocat/Hello-World/v1.0.0/source.tar.gz");
    assert_eq!(archive.url, "https://api.github.com/repos/octocat/Hello-World/tarball/v1.0.0");
    assert!(
        archive.credentials
            == Credentials::UsernamePassword { username: "secret".to_string(), password: String::new() }
    );
    assert_eq!(archive.last_modified, Some(Timestamp::new(60, 0)));
    assert_eq!(archive.content_type, None);
    assert_eq!(archive.get("asset.source-code"), true.into());
    assert_eq!(archive.get("release.tag"), "v1.0.0".into());
    assert_eq!(archive.get("release.prerelease"), true.into());
    assert_eq!(archive.get("release.published"), true.into());
    assert_eq!(archive.get("repo.name"), "Hello-World".into());
    assert_eq!(archive.get("asset.name"), FilterValue::Null);
    assert!(source.source_archive(&p, &r, &release("v2", None, vec![])).is_none());

    let (i, first) = source.next_asset(&p, &r, &rel, 0, false).unwrap();
    assert_eq!(i, 0);
    assert_eq!(first.name, "octocat/Hello-World/v1.0.0/a.zip");
    assert_eq!(first.url, "https://api.github.com/repos/octocat/Hello-World/releases/assets/7");
    assert_eq!(first.content_type.as_deref(), Some("application/octet-stream"));
    assert_eq!(first.last_modified, Some(Timestamp::new(200, 0)));
    assert_eq!(first.get("asset.name"), "a.zip".into());
    assert_eq!(first.get("asset.size"), 1024u32.into());
    assert_eq!(first.get("asset.downloaded"), true.into());
    assert_eq!(first.get("release.draft"), false.into());
    assert_eq!(first.get("asset.source-code"), FilterValue::Null);
    let (i, third) = source.next_asset(&p, &r, &rel, 1, false).unwrap();
    assert_eq!(i, 2);
    assert_eq!(third.name, "octocat/Hello-World/v1.0.0/c.zip");
    assert!(source.next_asset(&p, &r, &rel, 3, false).is_none());
    assert!(source.next_asset(&p, &r, &rel, 0, true).is_none());
    assert!(source.asset_file(&p, &r, &rel, &rel.assets[1]).is_none());
}

#[test]
fn test_metadata_sources_overwrite() {
    let mut bag = Metadata::new();
    bag.insert("repo.name", "old".into());
    bag.insert("other", 5u32.into());
    repo("new", false, 1).inject_metadata(&mut bag);
    assert_eq!(bag.get("repo.name"), "new".into());
    assert_eq!(bag.get("other"), 5u32.into());
}
