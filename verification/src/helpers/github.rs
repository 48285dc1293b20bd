//! The objects and the addresses of the remote API.
use vstd::prelude::*;
use crate::entities::metadata::{value_after, Metadata, MetadataSource};
use crate::errors::{user, user_error, Error, ErrorView};
use crate::filter::number::{Number, NumberView};
use crate::filter::value::{views_of, FilterValue, ValueView};
use crate::text::{join, same_str, split, split_text, texts_view};
use crate::time::Timestamp;

verus! {

/// What a policy backs up.
#[derive(Clone, Copy, Debug, PartialEq, Eq, Structural)]
pub enum GitHubArtifactKind {
    Repo,
    Release,
    Gist,
}

/// The name of an artifact kind in a policy.
pub open spec fn artifact_kind_text(kind: GitHubArtifactKind) -> Seq<char> {
    match kind {
        GitHubArtifactKind::Repo => "github/repo"@,
        GitHubArtifactKind::Release => "github/release"@,
        GitHubArtifactKind::Gist => "github/gist"@,
    }
}

/// The collection of the API that lists artifacts of a kind.
pub open spec fn artifact_endpoint(kind: GitHubArtifactKind) -> Seq<char> {
    match kind {
        GitHubArtifactKind::Repo => "repos"@,
        GitHubArtifactKind::Release => "repos"@,
        GitHubArtifactKind::Gist => "gists"@,
    }
}

impl GitHubArtifactKind {
    /// The name of this kind in a policy.
    pub fn as_str(&self) -> (name: &'static str)
        ensures
            name@ == artifact_kind_text(*self),
    {
        match self {
            GitHubArtifactKind::Repo => "github/repo",
            GitHubArtifactKind::Release => "github/release",
            GitHubArtifactKind::Gist => "github/gist",
        }
    }

    /// The collection of the API that lists artifacts of this kind.
    pub fn api_endpoint(&self) -> (endpoint: &'static str)
        ensures
            endpoint@ == artifact_endpoint(*self),
    {
        match self {
            GitHubArtifactKind::Repo => "repos",
            GitHubArtifactKind::Release => "repos",
            GitHubArtifactKind::Gist => "gists",
        }
    }

    /// The kind that a policy names by `name`.
    pub fn from_name(name: &str) -> (kind: Option<GitHubArtifactKind>)
        ensures
            kind == if name@ == "github/repo"@ {
                Some(GitHubArtifactKind::Repo)
            } else if name@ == "github/release"@ {
                Some(GitHubArtifactKind::Release)
            } else if name@ == "github/gist"@ {
                Some(GitHubArtifactKind::Gist)
            } else {
                None
            },
    {
        if same_str(name, "github/repo") {
            Some(GitHubArtifactKind::Repo)
        } else if same_str(name, "github/release") {
            Some(GitHubArtifactKind::Release)
        } else if same_str(name, "github/gist") {
            Some(GitHubArtifactKind::Gist)
        } else {
            None
        }
    }
}

/// Whose artifacts a policy backs up: what its `from` names.
#[derive(Clone, Debug, PartialEq, Eq)]
pub enum GitHubRepoSourceKind {
    /// `user`: the user that the credentials belong to.
    CurrentUser,
    /// `users/<name>`
    User(String),
    /// `orgs/<name>`
    Org(String),
    /// `starred`: what the current user has starred.
    Starred,
    /// `repos/<owner>/<name>`, held as `<owner>/<name>`.
    Repo(String),
    /// `gists/<id>`
    Gist(String),
}

/// A source kind as a mathematical object.
pub enum SourceKindView {
    CurrentUser,
    User(Seq<char>),
    Org(Seq<char>),
    Starred,
    Repo(Seq<char>),
    Gist(Seq<char>),
}

impl View for GitHubRepoSourceKind {
    type V = SourceKindView;

    open spec fn view(&self) -> SourceKindView {
        match self {
            GitHubRepoSourceKind::CurrentUser => SourceKindView::CurrentUser,
            GitHubRepoSourceKind::User(u) => SourceKindView::User(u@),
            GitHubRepoSourceKind::Org(o) => SourceKindView::Org(o@),
            GitHubRepoSourceKind::Starred => SourceKindView::Starred,
            GitHubRepoSourceKind::Repo(r) => SourceKindView::Repo(r@),
            GitHubRepoSourceKind::Gist(g) => SourceKindView::Gist(g@),
        }
    }
}

/// The source kind that the text `from` names, where it names one.
pub open spec fn source_kind_of(from: Seq<char>) -> Option<SourceKindView> {
    let parts = split_text(from, '/');
    if parts.len() == 1 && parts[0] == "user"@ {
        Some(SourceKindView::CurrentUser)
    } else if parts.len() == 1 && parts[0] == "starred"@ {
        Some(SourceKindView::Starred)
    } else if parts.len() == 2 && parts[0] == "users"@ && parts[1].len() > 0 {
        Some(SourceKindView::User(parts[1]))
    } else if parts.len() == 2 && parts[0] == "orgs"@ && parts[1].len() > 0 {
        Some(SourceKindView::Org(parts[1]))
    } else if parts.len() == 3 && parts[0] == "repos"@ && parts[2].len() > 0 {
        Some(SourceKindView::Repo(parts[1] + "/"@ + parts[2]))
    } else if parts.len() == 2 && parts[0] == "gists"@ && parts[1].len() > 0 {
        Some(SourceKindView::Gist(parts[1]))
    } else {
        None
    }
}

/// The user error for a `from` that names no source kind.
pub open spec fn invalid_from(from: Seq<char>) -> ErrorView {
    user_error(
        "The 'from' declaration '"@ + from
            + "' was not valid for a GitHub repository source."@,
        "Make sure you provide either 'user', 'users/<name>', 'orgs/<name>', or 'repos/<owner>/<name>'"@,
    )
}

/// The path of the API, below its root, that lists the artifacts of kind
/// `artifact` of the source `source`.
pub open spec fn endpoint_of(source: SourceKindView, artifact: GitHubArtifactKind) -> Seq<char> {
    match source {
        SourceKindView::CurrentUser => if artifact == GitHubArtifactKind::Gist {
            artifact_endpoint(artifact)
        } else {
            "user/"@ + artifact_endpoint(artifact)
        },
        SourceKindView::User(u) => "users/"@ + u + "/"@ + artifact_endpoint(artifact),
        SourceKindView::Org(o) => "orgs/"@ + o + "/"@ + artifact_endpoint(artifact),
        SourceKindView::Repo(r) => "repos/"@ + r,
        SourceKindView::Gist(g) => "gists/"@ + g,
        SourceKindView::Starred => if artifact == GitHubArtifactKind::Gist {
            "gists/starred"@
        } else {
            "user/starred"@
        },
    }
}

impl GitHubRepoSourceKind {
    /// The path of the API, below its root, that lists the artifacts of
    /// kind `artifact_kind` of this source.
    pub fn api_endpoint(&self, artifact_kind: GitHubArtifactKind) -> (endpoint: String)
        ensures
            endpoint@ == endpoint_of(self@, artifact_kind),
    {
        match self {
            GitHubRepoSourceKind::CurrentUser => match artifact_kind {
                GitHubArtifactKind::Gist => String::from_str(artifact_kind.api_endpoint()),
                _ => join("user/", artifact_kind.api_endpoint()),
            },
            GitHubRepoSourceKind::User(u) => {
                let mut out = join("users/", u.as_str());
                out.append("/");
                out.append(artifact_kind.api_endpoint());
                out
            },
            GitHubRepoSourceKind::Org(o) => {
                let mut out = join("orgs/", o.as_str());
                out.append("/");
                out.append(artifact_kind.api_endpoint());
                out
            },
            GitHubRepoSourceKind::Repo(r) => join("repos/", r.as_str()),
            GitHubRepoSourceKind::Gist(g) => join("gists/", g.as_str()),
            GitHubRepoSourceKind::Starred => match artifact_kind {
                GitHubArtifactKind::Gist => String::from_str("gists/starred"),
                _ => String::from_str("user/starred"),
            },
        }
    }

    /// The source kind that `from` names; a user error where it names
    /// none.
    pub fn parse(from: &str) -> (r: Result<GitHubRepoSourceKind, Error>)
        ensures
            match source_kind_of(from@) {
                Some(kind) => r matches Ok(k) && k@ == kind,
                None => r matches Err(e) && e@ == invalid_from(from@),
            },
    {
        let parts = split(from, '/');
        let ghost views = texts_view(parts@);
        proof {
            assert(views.len() == parts@.len());
            assert(forall|i: int| 0 <= i < parts@.len() ==> views[i] == parts@[i]@);
        }
        let n = parts.len();
        if n == 1 && same_str(parts[0].as_str(), "user") {
            return Ok(GitHubRepoSourceKind::CurrentUser);
        }
        if n == 1 && same_str(parts[0].as_str(), "starred") {
            return Ok(GitHubRepoSourceKind::Starred);
        }
        if n == 2 && same_str(parts[0].as_str(), "users") && !parts[1].as_str().is_empty() {
            return Ok(GitHubRepoSourceKind::User(parts[1].clone()));
        }
        if n == 2 && same_str(parts[0].as_str(), "orgs") && !parts[1].as_str().is_empty() {
            return Ok(GitHubRepoSourceKind::Org(parts[1].clone()));
        }
        if n == 3 && same_str(parts[0].as_str(), "repos") && !parts[2].as_str().is_empty() {
            let mut name = join(parts[1].as_str(), "/");
            name.append(parts[2].as_str());
            return Ok(GitHubRepoSourceKind::Repo(name));
        }
        if n == 2 && same_str(parts[0].as_str(), "gists") && !parts[1].as_str().is_empty() {
            return Ok(GitHubRepoSourceKind::Gist(parts[1].clone()));
        }
        let mut message = join("The 'from' declaration '", from);
        message.append("' was not valid for a GitHub repository source.");
        Err(
            user(
                message,
                "Make sure you provide either 'user', 'users/<name>', 'orgs/<name>', or 'repos/<owner>/<name>'",
            ),
        )
    }
}

impl std::str::FromStr for GitHubRepoSourceKind {
    type Err = Error;

    /// The source kind that `s` names; a user error where it names none.
    fn from_str(s: &str) -> (r: Result<GitHubRepoSourceKind, Error>)
        ensures
            match source_kind_of(s@) {
                Some(kind) => r matches Ok(k) && k@ == kind,
                None => r matches Err(e) && e@ == invalid_from(s@),
            },
    {
        GitHubRepoSourceKind::parse(s)
    }
}

/// A user of the remote side, as the API describes one.
pub struct GitHubUser {
    pub login: String,
    pub id: u64,
    pub node_id: String,
    pub avatar_url: String,
    pub gravatar_id: String,
    pub url: String,
    pub html_url: String,
    pub type_: String,
    pub site_admin: bool,
}

impl GitHubUser {
    /// The user as it is shown to a person: the login.
    pub fn to_string(&self) -> (out: String)
        ensures
            out@ == self.login@,
    {
        self.login.clone()
    }
}

/// A repository, as the API describes one.
pub struct GitHubRepo {
    pub id: u64,
    pub node_id: String,
    pub name: String,
    pub full_name: String,
    pub owner: GitHubUser,
    pub description: Option<String>,
    pub private: bool,
    pub fork: bool,
    pub html_url: String,
    pub url: String,
    pub clone_url: String,
    pub homepage: Option<String>,
    pub language: Option<String>,
    pub forks_count: u64,
    pub stargazers_count: u64,
    pub watchers_count: u64,
    pub size: u64,
    pub default_branch: String,
    pub open_issues_count: u64,
    pub is_template: bool,
    pub topics: Vec<String>,
    pub has_issues: bool,
    pub has_projects: bool,
    pub has_wiki: bool,
    pub has_pages: bool,
    pub has_downloads: bool,
    pub has_discussions: bool,
    pub archived: bool,
    pub disabled: bool,
    pub pushed_at: Timestamp,
    pub created_at: Timestamp,
    pub updated_at: Timestamp,
}

/// The whole number `n` as a filter value.
pub open spec fn whole(n: int) -> ValueView {
    ValueView::Number(NumberView { mantissa: n, scale: 0 })
}

fn count(n: u64) -> (v: FilterValue)
    ensures
        v@ == whole(n as int),
{
    FilterValue::Number(Number::from_u64(n))
}

fn text(s: &String) -> (v: FilterValue)
    ensures
        v@ == ValueView::String(s@),
{
    FilterValue::String(s.clone())
}

impl GitHubRepo {
    /// The repository as it is shown to a person: its full name.
    pub fn to_string(&self) -> (out: String)
        ensures
            out@ == self.full_name@,
    {
        self.full_name.clone()
    }
}

impl MetadataSource for GitHubRepo {
    open spec fn properties(&self) -> Seq<(Seq<char>, ValueView)> {
        seq![
            ("repo.name"@, ValueView::String(self.name@)),
            ("repo.fullname"@, ValueView::String(self.full_name@)),
            ("repo.private"@, ValueView::Bool(self.private)),
            ("repo.public"@, ValueView::Bool(!self.private)),
            ("repo.fork"@, ValueView::Bool(self.fork)),
            ("repo.size"@, whole(self.size as int)),
            ("repo.archived"@, ValueView::Bool(self.archived)),
            ("repo.disabled"@, ValueView::Bool(self.disabled)),
            ("repo.default_branch"@, ValueView::String(self.default_branch@)),
            ("repo.empty"@, ValueView::Bool(self.size == 0)),
            ("repo.template"@, ValueView::Bool(self.is_template)),
            ("repo.forks"@, whole(self.forks_count as int)),
            ("repo.stargazers"@, whole(self.stargazers_count as int)),
        ]
    }

    fn inject_metadata(&self, metadata: &mut Metadata) {
        metadata.insert("repo.name", text(&self.name));
        metadata.insert("repo.fullname", text(&self.full_name));
        metadata.insert("repo.private", FilterValue::Bool(self.private));
        metadata.insert("repo.public", FilterValue::Bool(!self.private));
        metadata.insert("repo.fork", FilterValue::Bool(self.fork));
        metadata.insert("repo.size", count(self.size));
        metadata.insert("repo.archived", FilterValue::Bool(self.archived));
        metadata.insert("repo.disabled", FilterValue::Bool(self.disabled));
        metadata.insert("repo.default_branch", text(&self.default_branch));
        metadata.insert("repo.empty", FilterValue::Bool(self.size == 0));
        metadata.insert("repo.template", FilterValue::Bool(self.is_template));
        metadata.insert("repo.forks", count(self.forks_count));
        metadata.insert("repo.stargazers", count(self.stargazers_count));
        proof {
            reveal_with_fuel(value_after, 14);
        }
    }
}

/// A file attached to a release, as the API describes one.
pub struct GitHubReleaseAsset {
    pub url: String,
    pub browser_download_url: String,
    pub id: u64,
    pub node_id: String,
    pub name: String,
    pub label: Option<String>,
    pub state: String,
    pub content_type: String,
    pub size: u64,
    pub download_count: u64,
    pub created_at: Timestamp,
    pub updated_at: Timestamp,
    pub uploader: GitHubUser,
}

impl MetadataSource for GitHubReleaseAsset {
    open spec fn properties(&self) -> Seq<(Seq<char>, ValueView)> {
        seq![
            ("asset.name"@, ValueView::String(self.name@)),
            ("asset.size"@, whole(self.size as int)),
            ("asset.downloaded"@, ValueView::Bool(self.download_count > 0)),
        ]
    }

    fn inject_metadata(&self, metadata: &mut Metadata) {
        metadata.insert("asset.name", text(&self.name));
        metadata.insert("asset.size", count(self.size));
        metadata.insert("asset.downloaded", FilterValue::Bool(self.download_count > 0));
        proof {
            reveal_with_fuel(value_after, 4);
        }
    }
}

/// A release of a repository, as the API describes one.
pub struct GitHubRelease {
    pub url: String,
    pub html_url: String,
    pub assets_url: String,
    pub tarball_url: Option<String>,
    pub zipball_url: Option<String>,
    pub id: u64,
    pub node_id: String,
    pub tag_name: String,
    pub target_commitish: String,
    pub name: String,
    pub body: Option<String>,
    pub draft: bool,
    pub prerelease: bool,
    pub created_at: Timestamp,
    pub published_at: Option<Timestamp>,
    pub author: GitHubUser,
    pub assets: Vec<GitHubReleaseAsset>,
}

impl MetadataSource for GitHubRelease {
    open spec fn properties(&self) -> Seq<(Seq<char>, ValueView)> {
        seq![
            ("release.tag"@, ValueView::String(self.tag_name@)),
            ("release.name"@, ValueView::String(self.name@)),
            ("release.draft"@, ValueView::Bool(self.draft)),
            ("release.prerelease"@, ValueView::Bool(self.prerelease)),
            ("release.published"@, ValueView::Bool(self.published_at is Some)),
        ]
    }

    fn inject_metadata(&self, metadata: &mut Metadata) {
        metadata.insert("release.tag", text(&self.tag_name));
        metadata.insert("release.name", text(&self.name));
        metadata.insert("release.draft", FilterValue::Bool(self.draft));
        metadata.insert("release.prerelease", FilterValue::Bool(self.prerelease));
        metadata.insert("release.published", FilterValue::Bool(self.published_at.is_some()));
        proof {
            reveal_with_fuel(value_after, 6);
        }
    }
}

/// A file of a gist, as the API describes one.
pub struct GistFile {
    pub filename: String,
    pub type_: String,
    pub language: Option<String>,
    pub raw_url: String,
    pub size: u64,
}

/// A gist, as the API describes one. Its files stand in the order in which
/// they were handed over, each under its key; `forks` counts the forks that
/// are listed, where a list is there.
pub struct GitHubGist {
    pub id: String,
    pub node_id: String,
    pub owner: Option<GitHubUser>,
    pub description: Option<String>,
    pub public: bool,
    pub url: String,
    pub forks_url: String,
    pub commits_url: String,
    pub git_pull_url: String,
    pub git_push_url: String,
    pub html_url: String,
    pub comments: u64,
    pub comments_enabled: Option<bool>,
    pub comments_url: String,
    pub truncated: bool,
    pub files: Vec<(String, GistFile)>,
    pub forks: Option<u64>,
    pub created_at: String,
    pub updated_at: String,
}

/// The keys of the first `n` files, as strings.
pub open spec fn file_names(files: Seq<(String, GistFile)>, n: int) -> Seq<ValueView>
    decreases n,
{
    if n <= 0 || n > files.len() {
        Seq::empty()
    } else {
        file_names(files, n - 1).push(ValueView::String(files[n - 1].0@))
    }
}

/// The languages of those of the first `n` files that have one, as strings.
pub open spec fn file_languages(files: Seq<(String, GistFile)>, n: int) -> Seq<ValueView>
    decreases n,
{
    if n <= 0 || n > files.len() {
        Seq::empty()
    } else {
        match files[n - 1].1.language {
            Some(l) => file_languages(files, n - 1).push(ValueView::String(l@)),
            None => file_languages(files, n - 1),
        }
    }
}

/// The types of the first `n` files, as strings.
pub open spec fn file_types(files: Seq<(String, GistFile)>, n: int) -> Seq<ValueView>
    decreases n,
{
    if n <= 0 || n > files.len() {
        Seq::empty()
    } else {
        file_types(files, n - 1).push(ValueView::String(files[n - 1].1.type_@))
    }
}

/// A boolean that may be missing, as a filter value.
pub open spec fn optional_bool(b: Option<bool>) -> ValueView {
    match b {
        Some(b) => ValueView::Bool(b),
        None => ValueView::Null,
    }
}

/// A count that may be missing, as a filter value: zero where it is.
pub open spec fn optional_count(n: Option<u64>) -> ValueView {
    match n {
        Some(n) => whole(n as int),
        None => whole(0),
    }
}

impl GitHubGist {
    fn names(&self) -> (out: FilterValue)
        ensures
            out@ == ValueView::Tuple(file_names(self.files@, self.files@.len() as int)),
    {
        let mut items: Vec<FilterValue> = Vec::new();
        let mut i: usize = 0;
        proof {
            assert(views_of(items@) =~= file_names(self.files@, 0));
        }
        while i < self.files.len()
            invariant
                i <= self.files@.len(),
                views_of(items@) == file_names(self.files@, i as int),
            decreases self.files@.len() - i,
        {
            let ghost seen = views_of(items@);
            let item = text(&self.files[i].0);
            items.push(item);
            proof {
                assert(views_of(items@) =~= seen.push(item@));
            }
            i += 1;
        }
        let out = FilterValue::Tuple(items);
        proof {
            assert(out@->Tuple_0 =~= views_of(items@));
        }
        out
    }

    fn languages(&self) -> (out: FilterValue)
        ensures
            out@ == ValueView::Tuple(file_languages(self.files@, self.files@.len() as int)),
    {
        let mut items: Vec<FilterValue> = Vec::new();
        let mut i: usize = 0;
        proof {
            assert(views_of(items@) =~= file_languages(self.files@, 0));
        }
        while i < self.files.len()
            invariant
                i <= self.files@.len(),
                views_of(items@) == file_languages(self.files@, i as int),
            decreases self.files@.len() - i,
        {
            let ghost seen = views_of(items@);
            match &self.files[i].1.language {
                Some(l) => {
                    let item = text(l);
                    items.push(item);
                    proof {
                        assert(views_of(items@) =~= seen.push(item@));
                    }
                },
                None => {},
            }
            i += 1;
        }
        let out = FilterValue::Tuple(items);
        proof {
            assert(out@->Tuple_0 =~= views_of(items@));
        }
        out
    }

    fn types(&self) -> (out: FilterValue)
        ensures
            out@ == ValueView::Tuple(file_types(self.files@, self.files@.len() as int)),
    {
        let mut items: Vec<FilterValue> = Vec::new();
        let mut i: usize = 0;
        proof {
            assert(views_of(items@) =~= file_types(self.files@, 0));
        }
        while i < self.files.len()
            invariant
                i <= self.files@.len(),
                views_of(items@) == file_types(self.files@, i as int),
            decreases self.files@.len() - i,
        {
            let ghost seen = views_of(items@);
            let item = text(&self.files[i].1.type_);
            items.push(item);
            proof {
                assert(views_of(items@) =~= seen.push(item@));
            }
            i += 1;
        }
        let out = FilterValue::Tuple(items);
        proof {
            assert(out@->Tuple_0 =~= views_of(items@));
        }
        out
    }
}

impl MetadataSource for GitHubGist {
    open spec fn properties(&self) -> Seq<(Seq<char>, ValueView)> {
        seq![
            ("gist.public"@, ValueView::Bool(self.public)),
            ("gist.private"@, ValueView::Bool(!self.public)),
            ("gist.comments_enabled"@, optional_bool(self.comments_enabled)),
            ("gist.comments"@, whole(self.comments as int)),
            ("gist.files"@, whole(self.files@.len() as int)),
            ("gist.forks"@, optional_count(self.forks)),
            (
                "gist.file_names"@,
                ValueView::Tuple(file_names(self.files@, self.files@.len() as int)),
            ),
            (
                "gist.languages"@,
                ValueView::Tuple(file_languages(self.files@, self.files@.len() as int)),
            ),
            ("gist.type"@, ValueView::Tuple(file_types(self.files@, self.files@.len() as int))),
        ]
    }

    fn inject_metadata(&self, metadata: &mut Metadata) {
        metadata.insert("gist.public", FilterValue::Bool(self.public));
        metadata.insert("gist.private", FilterValue::Bool(!self.public));
        metadata.insert(
            "gist.comments_enabled",
            match self.comments_enabled {
                Some(b) => FilterValue::Bool(b),
                None => FilterValue::Null,
            },
        );
        metadata.insert("gist.comments", count(self.comments));
        metadata.insert("gist.files", count(self.files.len() as u64));
        metadata.insert(
            "gist.forks",
            match self.forks {
                Some(n) => count(n),
                None => count(0),
            },
        );
        metadata.insert("gist.file_names", self.names());
        metadata.insert("gist.languages", self.languages());
        metadata.insert("gist.type", self.types());
        proof {
            reveal_with_fuel(value_after, 10);
        }
    }
}

} // verus!
