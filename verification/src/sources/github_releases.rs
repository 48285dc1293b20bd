//! The files of the releases of repositories.
use vstd::prelude::*;
use super::{
    listing_address, plan_view, refspecs_for, unsuitable, unsuitable_from, BackupSource, LoadPlan,
};
use crate::entities::credentials::{download_credentials, CredentialsView};
use crate::entities::http_file::HttpFile;
use crate::entities::metadata::{folded, value_after, MetadataSource};
use crate::errors::{Error, ErrorView};
use crate::filter::value::{FilterValue, ValueView};
use crate::helpers::github::{
    artifact_kind_text, invalid_from, source_kind_of, GitHubArtifactKind, GitHubRelease,
    GitHubReleaseAsset, GitHubRepo, GitHubRepoSourceKind,
};
use crate::helpers::GitHubClient;
use crate::policy::BackupPolicy;
use crate::text::{decimal_text, join, push_number, same_str, surround};

verus! {

/// The source of release files.
#[derive(Clone, Copy, Debug, Default)]
pub struct GitHubReleasesSource {
    client: GitHubClient,
}

/// The address of the listing of the releases of `repo`.
pub open spec fn releases_url(repo: &GitHubRepo) -> Seq<char> {
    repo.url@ + "/releases"@
}

/// The name of a file of the release `release` of `repo`.
pub open spec fn release_file_name(repo: &GitHubRepo, release: &GitHubRelease, file: Seq<char>) -> Seq<
    char,
> {
    repo.full_name@ + "/"@ + release.tag_name@ + "/"@ + file
}

/// The address under which the asset `asset` of `repo` is downloaded.
pub open spec fn asset_url(repo: &GitHubRepo, asset: &GitHubReleaseAsset) -> Seq<char> {
    repo.url@ + "/releases/assets/"@ + decimal_text(asset.id as nat)
}

/// The properties of a file of `release` of `repo`, before those of the
/// file itself.
pub open spec fn release_value(repo: &GitHubRepo, release: &GitHubRelease, key: Seq<char>) -> ValueView {
    value_after(
        value_after(ValueView::Null, repo.properties(), repo.properties().len() as int, key),
        release.properties(),
        release.properties().len() as int,
        key,
    )
}

/// Whether `file` is the source archive of `release` of `repo`, to be
/// downloaded with what `credentials` become for downloads.
pub open spec fn is_source_archive(
    file: &HttpFile,
    repo: &GitHubRepo,
    release: &GitHubRelease,
    credentials: CredentialsView,
) -> bool {
    &&& release.tarball_url is Some
    &&& file.name@ == release_file_name(repo, release, "source.tar.gz"@)
    &&& file.url@ == release.tarball_url->0@
    &&& file.credentials@ == download_credentials(credentials)
    &&& file.last_modified == release.published_at
    &&& file.content_type is None
    &&& forall|key: Seq<char>|
        file.metadata.value_of(key) == if folded(key) == folded("asset.source-code"@) {
            ValueView::Bool(true)
        } else {
            release_value(repo, release, key)
        }
}

/// Whether `file` is the asset `asset` of `release` of `repo`, to be
/// downloaded with what `credentials` become for downloads.
pub open spec fn is_asset_file(
    file: &HttpFile,
    repo: &GitHubRepo,
    release: &GitHubRelease,
    asset: &GitHubReleaseAsset,
    credentials: CredentialsView,
) -> bool {
    &&& file.name@ == release_file_name(repo, release, asset.name@)
    &&& file.url@ == asset_url(repo, asset)
    &&& file.credentials@ == download_credentials(credentials)
    &&& file.last_modified == Some(asset.updated_at)
    &&& file.content_type matches Some(t) && t@ == "application/octet-stream"@
    &&& forall|key: Seq<char>|
        file.metadata.value_of(key) == value_after(
            release_value(repo, release, key),
            asset.properties(),
            asset.properties().len() as int,
            key,
        )
}

/// Whether an asset has been uploaded in full.
pub open spec fn is_uploaded(asset: &GitHubReleaseAsset) -> bool {
    asset.state@ == "uploaded"@
}

/// The index of the first uploaded asset at or after `i`, or the number
/// of assets where there is none.
pub open spec fn next_uploaded(assets: Seq<GitHubReleaseAsset>, i: int) -> int
    decreases assets.len() - i,
{
    if 0 <= i < assets.len() && !is_uploaded(&assets[i]) {
        next_uploaded(assets, i + 1)
    } else if i < assets.len() {
        i
    } else {
        assets.len() as int
    }
}

fn file_name(repo: &GitHubRepo, release: &GitHubRelease, file: &str) -> (name: String)
    ensures
        name@ == release_file_name(repo, release, file@),
{
    let mut name = surround(repo.full_name.as_str(), "/", release.tag_name.as_str());
    name.append("/");
    name.append(file);
    name
}

impl GitHubReleasesSource {
    /// The source of release files, using `client`.
    pub fn with_client(client: GitHubClient) -> (source: GitHubReleasesSource) {
        GitHubReleasesSource { client }
    }

    /// How to read the repositories whose releases `policy` names: a
    /// single object for `repos/<owner>/<name>`, a listing for anything
    /// else. A user error where `from` names no source.
    pub fn plan(&self, policy: &BackupPolicy) -> (r: Result<LoadPlan, Error>)
        ensures
            match source_kind_of(policy.from@) {
                Some(source) => r matches Ok(plan) && plan_view(
                    policy,
                    GitHubArtifactKind::Release,
                    plan,
                    source is Repo,
                    source,
                ),
                None => r matches Err(e) && e@ == invalid_from(policy.from@),
            },
    {
        let target = match GitHubRepoSourceKind::parse(policy.from.as_str()) {
            Ok(t) => t,
            Err(e) => {
                return Err(e);
            },
        };
        let endpoint = target.api_endpoint(GitHubArtifactKind::Release);
        let single = match target {
            GitHubRepoSourceKind::Repo(_) => true,
            _ => false,
        };
        Ok(
            LoadPlan {
                url: listing_address(policy, endpoint.as_str()),
                single,
                refspecs: refspecs_for(policy),
            },
        )
    }

    /// The address of the listing of the releases of `repo`, where it has
    /// any to download.
    pub fn releases_of(&self, repo: &GitHubRepo) -> (url: Option<String>)
        ensures
            match url {
                Some(u) => repo.has_downloads && u@ == releases_url(repo),
                None => !repo.has_downloads,
            },
    {
        if repo.has_downloads {
            Some(join(repo.url.as_str(), "/releases"))
        } else {
            None
        }
    }

    /// The source archive of `release`, where it has one.
    pub fn source_archive(
        &self,
        policy: &BackupPolicy,
        repo: &GitHubRepo,
        release: &GitHubRelease,
    ) -> (file: Option<HttpFile>)
        ensures
            match file {
                Some(f) => is_source_archive(&f, repo, release, policy.credentials@),
                None => release.tarball_url is None,
            },
    {
        match &release.tarball_url {
            Some(url) => {
                let name = file_name(repo, release, "source.tar.gz");
                Some(
                    HttpFile::new(name.as_str(), url.as_str()).with_metadata_source(
                        repo,
                    ).with_metadata_source(release).with_metadata(
                        "asset.source-code",
                        FilterValue::Bool(true),
                    ).with_credentials(policy.credentials.for_download()).with_last_modified(
                        release.published_at,
                    ),
                )
            },
            None => None,
        }
    }

    /// The file for the asset `asset` of `release`, where the asset has
    /// been uploaded in full.
    pub fn asset_file(
        &self,
        policy: &BackupPolicy,
        repo: &GitHubRepo,
        release: &GitHubRelease,
        asset: &GitHubReleaseAsset,
    ) -> (file: Option<HttpFile>)
        ensures
            match file {
                Some(f) => is_uploaded(asset) && is_asset_file(
                    &f,
                    repo,
                    release,
                    asset,
                    policy.credentials@,
                ),
                None => !is_uploaded(asset),
            },
    {
        if !same_str(asset.state.as_str(), "uploaded") {
            return None;
        }
        let name = file_name(repo, release, asset.name.as_str());
        let mut url = join(repo.url.as_str(), "/releases/assets/");
        push_number(&mut url, asset.id);
        Some(
            HttpFile::new(name.as_str(), url.as_str()).with_content_type(
                Some(String::from_str("application/octet-stream")),
            ).with_credentials(policy.credentials.for_download()).with_last_modified(
                Some(asset.updated_at),
            ).with_metadata_source(repo).with_metadata_source(release).with_metadata_source(asset),
        )
    }

    /// The files of `release` from the asset at index `from` on, as long
    /// as the backup is not cancelled: the index of the next asset that
    /// has been uploaded in full and its file, or nothing where no such
    /// asset is left or `cancelled` is set.
    pub fn next_asset(
        &self,
        policy: &BackupPolicy,
        repo: &GitHubRepo,
        release: &GitHubRelease,
        from: usize,
        cancelled: bool,
    ) -> (found: Option<(usize, HttpFile)>)
        ensures
            match found {
                Some((i, f)) => !cancelled && i == next_uploaded(release.assets@, from as int) && i
                    < release.assets@.len() && is_asset_file(
                    &f,
                    repo,
                    release,
                    &release.assets@[i as int],
                    policy.credentials@,
                ),
                None => cancelled || next_uploaded(release.assets@, from as int)
                    >= release.assets@.len(),
            },
    {
        if cancelled {
            return None;
        }
        let mut i = from;
        while i < release.assets.len()
            invariant
                !cancelled,
                from <= i,
                next_uploaded(release.assets@, i as int) == next_uploaded(
                    release.assets@,
                    from as int,
                ),
            decreases release.assets@.len() - i,
        {
            match self.asset_file(policy, repo, release, &release.assets[i]) {
                Some(file) => {
                    proof {
                        assert(next_uploaded(release.assets@, i as int) == i);
                    }
                    return Some((i, file));
                },
                None => {},
            }
            i += 1;
        }
        None
    }
}

impl BackupSource for GitHubReleasesSource {
    open spec fn kind_name(&self) -> Seq<char> {
        artifact_kind_text(GitHubArtifactKind::Release)
    }

    open spec fn objection(&self, policy: &BackupPolicy) -> Option<ErrorView> {
        match source_kind_of(policy.from@) {
            Some(source) => if source is Starred {
                Some(unsuitable_from(policy, "You cannot use starred to backup releases."@))
            } else {
                None
            },
            None => Some(invalid_from(policy.from@)),
        }
    }

    fn kind(&self) -> (kind: &str) {
        GitHubArtifactKind::Release.as_str()
    }

    fn validate(&self, policy: &BackupPolicy) -> (r: Result<(), Error>) {
        match GitHubRepoSourceKind::parse(policy.from.as_str()) {
            Ok(GitHubRepoSourceKind::Starred) => Err(
                unsuitable(policy, "You cannot use starred to backup releases."),
            ),
            Ok(_) => Ok(()),
            Err(e) => Err(e),
        }
    }
}

} // verus!
