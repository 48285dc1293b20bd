//! Gists of a user, or the starred gists of the current user.
use vstd::prelude::*;
use super::{
    listing_address, plan_view, refspecs_for, unsuitable, unsuitable_from, BackupSource, LoadPlan,
};
use crate::entities::git_repo::GitRepo;
use crate::entities::metadata::{value_after, MetadataSource};
use crate::errors::{Error, ErrorView};
use crate::filter::value::ValueView;
use crate::helpers::github::{
    artifact_kind_text, invalid_from, source_kind_of, GitHubArtifactKind, GitHubGist,
    GitHubRepoSourceKind,
};
use crate::helpers::GitHubClient;
use crate::policy::BackupPolicy;
use crate::text::{copy_texts, texts_view};

verus! {

/// The source of gists.
#[derive(Clone, Copy, Debug)]
pub struct GitHubGistSource {
    client: GitHubClient,
    artifact_kind: GitHubArtifactKind,
}

impl GitHubGistSource {
    /// The kind of artifact that this source lists.
    pub closed spec fn artifact(&self) -> GitHubArtifactKind {
        self.artifact_kind
    }

    /// The source of artifacts of kind `kind`, using `client`.
    pub fn with_client(client: GitHubClient, kind: GitHubArtifactKind) -> (source: GitHubGistSource)
        ensures
            source.artifact() == kind,
    {
        GitHubGistSource { client, artifact_kind: kind }
    }

    /// The source of gists.
    pub fn gist() -> (source: GitHubGistSource)
        ensures
            source.artifact() == GitHubArtifactKind::Gist,
    {
        GitHubGistSource { client: GitHubClient, artifact_kind: GitHubArtifactKind::Gist }
    }

    /// How to read the gists that `policy` names: a single object for
    /// `gists/<id>`, a listing for anything else. A user error where
    /// `from` names no source.
    pub fn plan(&self, policy: &BackupPolicy) -> (r: Result<LoadPlan, Error>)
        ensures
            match source_kind_of(policy.from@) {
                Some(source) => r matches Ok(plan) && plan_view(
                    policy,
                    self.artifact(),
                    plan,
                    source is Gist,
                    source,
                ),
                None => r matches Err(e) && e@ == invalid_from(policy.from@),
            },
    {
        let target = match GitHubRepoSourceKind::parse(policy.from.as_str()) {
            Ok(t) => t,
            Err(e) => {
                return Err(e);
            },
        };
        let endpoint = target.api_endpoint(self.artifact_kind);
        let single = match target {
            GitHubRepoSourceKind::Gist(_) => true,
            _ => false,
        };
        Ok(
            LoadPlan {
                url: listing_address(policy, endpoint.as_str()),
                single,
                refspecs: refspecs_for(policy),
            },
        )
    }

    /// The entity for the gist `gist`, listed for `policy`: a repository
    /// under the name of the gist's id.
    pub fn entity(&self, gist: &GitHubGist, policy: &BackupPolicy, plan: &LoadPlan) -> (entity: GitRepo)
        ensures
            entity.name@ == gist.id@,
            entity.clone_url@ == gist.git_pull_url@,
            entity.credentials@ == policy.credentials@,
            entity.named_refspecs() == match plan.refspecs {
                Some(specs) => Some(texts_view(specs@)),
                None => None,
            },
            forall|key: Seq<char>|
                entity.metadata.value_of(key) == value_after(
                    ValueView::Null,
                    gist.properties(),
                    gist.properties().len() as int,
                    key,
                ),
    {
        let refspecs = match &plan.refspecs {
            Some(specs) => Some(copy_texts(specs)),
            None => None,
        };
        GitRepo::new(gist.id.as_str(), gist.git_pull_url.as_str(), refspecs).with_credentials(
            policy.credentials.duplicate(),
        ).with_metadata_source(gist)
    }
}

impl BackupSource for GitHubGistSource {
    open spec fn kind_name(&self) -> Seq<char> {
        artifact_kind_text(self.artifact())
    }

    open spec fn objection(&self, policy: &BackupPolicy) -> Option<ErrorView> {
        match source_kind_of(policy.from@) {
            Some(source) => if source is Org {
                Some(unsuitable_from(policy, "You cannot use an organization to backup gists."@))
            } else {
                None
            },
            None => Some(invalid_from(policy.from@)),
        }
    }

    fn kind(&self) -> (kind: &str) {
        self.artifact_kind.as_str()
    }

    fn validate(&self, policy: &BackupPolicy) -> (r: Result<(), Error>) {
        match GitHubRepoSourceKind::parse(policy.from.as_str()) {
            Ok(GitHubRepoSourceKind::Org(_)) => Err(
                unsuitable(policy, "You cannot use an organization to backup gists."),
            ),
            Ok(_) => Ok(()),
            Err(e) => Err(e),
        }
    }
}

} // verus!
