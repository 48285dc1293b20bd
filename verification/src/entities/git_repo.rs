//! A repository to mirror.
use vstd::prelude::*;
use super::credentials::Credentials;
use super::metadata::{folded, value_after, Metadata, MetadataSource};
use super::BackupEntity;
use crate::filter::value::{FilterValue, Filterable, ValueView};

verus! {

/// A git repository on the remote side: where to clone it from, what to
/// present there, which refs to fetch (all branches where none are named),
/// and what a filter may ask about it.
pub struct GitRepo {
    pub name: String,
    pub clone_url: String,
    pub credentials: Credentials,
    pub refspecs: Option<Vec<String>>,
    pub metadata: Metadata,
}

impl GitRepo {
    /// The refspecs that are named, as texts.
    pub open spec fn named_refspecs(&self) -> Option<Seq<Seq<char>>> {
        match self.refspecs {
            Some(specs) => Some(crate::text::texts_view(specs@)),
            None => None,
        }
    }

    /// The repository `name` at `clone_url`, without credentials or
    /// properties.
    pub fn new(name: &str, clone_url: &str, refspecs: Option<Vec<String>>) -> (repo: GitRepo)
        ensures
            repo.name@ == name@,
            repo.clone_url@ == clone_url@,
            repo.credentials@ == super::credentials::CredentialsView::Anonymous,
            repo.refspecs == refspecs,
            forall|key: Seq<char>| repo.metadata.value_of(key) == ValueView::Null,
    {
        GitRepo {
            name: String::from_str(name),
            clone_url: String::from_str(clone_url),
            credentials: Credentials::Anonymous,
            refspecs,
            metadata: Metadata::new(),
        }
    }

    /// This repository, to be fetched with `credentials`.
    pub fn with_credentials(self, credentials: Credentials) -> (repo: GitRepo)
        ensures
            repo.credentials == credentials,
            repo.name == self.name,
            repo.clone_url == self.clone_url,
            repo.refspecs == self.refspecs,
            repo.metadata == self.metadata,
    {
        GitRepo { credentials, ..self }
    }

    /// This repository with `value` under the property `key`.
    pub fn with_metadata(self, key: &str, value: FilterValue) -> (repo: GitRepo)
        ensures
            repo.name == self.name,
            repo.clone_url == self.clone_url,
            repo.credentials == self.credentials,
            repo.refspecs == self.refspecs,
            forall|k: Seq<char>|
                repo.metadata.value_of(k) == if folded(k) == folded(key@) {
                    value@
                } else {
                    self.metadata.value_of(k)
                },
    {
        let mut repo = self;
        repo.metadata.insert(key, value);
        repo
    }

    /// This repository with the properties that `source` knows.
    pub fn with_metadata_source<S: MetadataSource>(self, source: &S) -> (repo: GitRepo)
        ensures
            repo.name == self.name,
            repo.clone_url == self.clone_url,
            repo.credentials == self.credentials,
            repo.refspecs == self.refspecs,
            forall|k: Seq<char>|
                repo.metadata.value_of(k) == value_after(
                    self.metadata.value_of(k),
                    source.properties(),
                    source.properties().len() as int,
                    k,
                ),
    {
        let mut repo = self;
        source.inject_metadata(&mut repo.metadata);
        repo
    }

    /// The repository as it is shown to a person: its name.
    pub fn to_string(&self) -> (out: String)
        ensures
            out@ == self.name@,
    {
        self.name.clone()
    }
}

impl Filterable for GitRepo {
    open spec fn property(&self, key: Seq<char>) -> ValueView {
        self.metadata.value_of(key)
    }

    fn get(&self, key: &str) -> (value: FilterValue) {
        self.metadata.get(key)
    }
}

impl BackupEntity for GitRepo {
    open spec fn entity_name(&self) -> Seq<char> {
        self.name@
    }

    open spec fn target(&self) -> Seq<char> {
        self.name@
    }

    fn name(&self) -> (name: &str) {
        self.name.as_str()
    }

    fn target_path(&self) -> (path: String) {
        self.name.clone()
    }
}

} // verus!
