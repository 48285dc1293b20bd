//! Repositories of a user, an organisation, or the stars of the current
//! user.
use vstd::prelude::*;
use super::{listing_address, plan_view, refspecs_for, BackupSource, LoadPlan};
use crate::entities::git_repo::GitRepo;
use crate::entities::metadata::{value_after, MetadataSource};
use crate::errors::{Error, ErrorView};
use crate::filter::value::ValueView;
use crate::helpers::github::{
    artifact_kind_text, invalid_from, source_kind_of, GitHubArtifactKind, GitHubRepo,
    GitHubRepoSourceKind,
};
use crate::helpers::GitHubClient;
use crate::policy::BackupPolicy;
use crate::text::{copy_texts, texts_view};

verus! {

/// The source of repositories.
#[derive(Clone, Copy, Debug)]
pub struct GitHubRepoSource {
    client: GitHubClient,
    artifact_kind: GitHubArtifactKind,
}

impl GitHubRepoSource {
    /// The kind of artifact that this source lists.
    pub closed spec fn artifact(&self) -> GitHubArtifactKind {
        self.artifact_kind
    }

    /// The source of artifacts of kind `kind`, using `client`.
    pub fn with_client(client: GitHubClient, kind: GitHubArtifactKind) -> (source: GitHubRepoSource)
        ensures
            source.artifact() == kind,
    {
        GitHubRepoSource { client, artifact_kind: kind }
    }

    /// The source of repositories.
    pub fn repo() -> (source: GitHubRepoSource)
        ensures
            source.artifact() == GitHubArtifactKind::Repo,
    {
        GitHubRepoSource { client: GitHubClient, artifact_kind: GitHubArtifactKind::Repo }
    }

    /// How to read the repositories that `policy` names: a single object
    /// for `repos/<owner>/<name>`, a listing for anything else. A user
    /// error where `from` names no source.
    pub fn plan(&self, policy: &BackupPolicy) -> (r: Result<LoadPlan, Error>)
        ensures
            match source_kind_of(policy.from@) {
                Some(source) => r matches Ok(plan) && plan_view(
                    policy,
                    self.artifact(),
                    plan,
                    source is Repo,
                    source,
                ),
                None => r matches Err(e) && e@ == invalid_from(policy.from@),
            },
    {
        let target = match GitHubRepoSourceKind::parse(policy.from.as_str()) {
            Ok(t) => t,
            Err(e) => {
                return Err(e);
            },
        };
        let endpoint = target.api_endpoint(self.artifact_kind);
        let single = match target {
            GitHubRepoSourceKind::Repo(_) => true,
            _ => false,
        };
        Ok(
            LoadPlan {
                url: listing_address(policy, endpoint.as_str()),
                single,
                refspecs: refspecs_for(policy),
            },
        )
    }

    /// The entity for the repository `repo`, listed for `policy`.
    pub fn entity(&self, repo: &GitHubRepo, policy: &BackupPolicy, plan: &LoadPlan) -> (entity: GitRepo)
        ensures
            entity.name@ == repo.full_name@,
            entity.clone_url@ == repo.clone_url@,
            entity.credentials@ == policy.credentials@,
            entity.named_refspecs() == match plan.refspecs {
                Some(specs) => Some(texts_view(specs@)),
                None => None,
            },
            forall|key: Seq<char>|
                entity.metadata.value_of(key) == value_after(
                    ValueView::Null,
                    repo.properties(),
                    repo.properties().len() as int,
                    key,
                ),
    {
        let refspecs = match &plan.refspecs {
            Some(specs) => Some(copy_texts(specs)),
            None => None,
        };
        GitRepo::new(repo.full_name.as_str(), repo.clone_url.as_str(), refspecs).with_credentials(
            policy.credentials.duplicate(),
        ).with_metadata_source(repo)
    }
}

impl BackupSource for GitHubRepoSource {
    open spec fn kind_name(&self) -> Seq<char> {
        artifact_kind_text(self.artifact())
    }

    open spec fn objection(&self, policy: &BackupPolicy) -> Option<ErrorView> {
        match source_kind_of(policy.from@) {
            Some(_) => None,
            None => Some(invalid_from(policy.from@)),
        }
    }

    fn kind(&self) -> (kind: &str) {
        self.artifact_kind.as_str()
    }

    fn validate(&self, policy: &BackupPolicy) -> (r: Result<(), Error>) {
        match GitHubRepoSourceKind::parse(policy.from.as_str()) {
            Ok(_) => Ok(()),
            Err(e) => Err(e),
        }
    }
}

} // verus!
