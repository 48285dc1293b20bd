//! A file to download.
use vstd::prelude::*;
use super::credentials::Credentials;
use super::metadata::{folded, value_after, Metadata, MetadataSource};
use super::BackupEntity;
use crate::filter::value::{FilterValue, Filterable, ValueView};
use crate::time::Timestamp;

verus! {

/// A file on the remote side: where to get it, what to present there, the
/// content type to ask for, when it last changed if that is known, and what
/// a filter may ask about it.
pub struct HttpFile {
    pub name: String,
    pub url: String,
    pub credentials: Credentials,
    pub last_modified: Option<Timestamp>,
    pub content_type: Option<String>,
    pub metadata: Metadata,
}

impl HttpFile {
    /// The file `name` at `url`, with nothing else known of it.
    pub fn new(name: &str, url: &str) -> (file: HttpFile)
        ensures
            file.name@ == name@,
            file.url@ == url@,
            file.credentials@ == super::credentials::CredentialsView::Anonymous,
            file.last_modified is None,
            file.content_type is None,
            forall|key: Seq<char>| file.metadata.value_of(key) == ValueView::Null,
    {
        HttpFile {
            name: String::from_str(name),
            url: String::from_str(url),
            credentials: Credentials::Anonymous,
            last_modified: None,
            content_type: None,
            metadata: Metadata::new(),
        }
    }

    /// This file, to be downloaded with `credentials`.
    pub fn with_credentials(self, credentials: Credentials) -> (file: HttpFile)
        ensures
            file.credentials == credentials,
            file.name == self.name,
            file.url == self.url,
            file.last_modified == self.last_modified,
            file.content_type == self.content_type,
            file.metadata == self.metadata,
    {
        HttpFile { credentials, ..self }
    }

    /// This file, last changed at `last_modified`.
    pub fn with_last_modified(self, last_modified: Option<Timestamp>) -> (file: HttpFile)
        ensures
            file.last_modified == last_modified,
            file.name == self.name,
            file.url == self.url,
            file.credentials == self.credentials,
            file.content_type == self.content_type,
            file.metadata == self.metadata,
    {
        HttpFile { last_modified, ..self }
    }

    /// This file, to be asked for as `content_type`.
    pub fn with_content_type(self, content_type: Option<String>) -> (file: HttpFile)
        ensures
            file.content_type == content_type,
            file.name == self.name,
            file.url == self.url,
            file.credentials == self.credentials,
            file.last_modified == self.last_modified,
            file.metadata == self.metadata,
    {
        HttpFile { content_type, ..self }
    }

    /// This file with `value` under the property `key`.
    pub fn with_metadata(self, key: &str, value: FilterValue) -> (file: HttpFile)
        ensures
            file.name == self.name,
            file.url == self.url,
            file.credentials == self.credentials,
            file.last_modified == self.last_modified,
            file.content_type == self.content_type,
            forall|k: Seq<char>|
                file.metadata.value_of(k) == if folded(k) == folded(key@) {
                    value@
                } else {
                    self.metadata.value_of(k)
                },
    {
        let mut file = self;
        file.metadata.insert(key, value);
        file
    }

    /// This file with the properties that `source` knows.
    pub fn with_metadata_source<S: MetadataSource>(self, source: &S) -> (file: HttpFile)
        ensures
            file.name == self.name,
            file.url == self.url,
            file.credentials == self.credentials,
            file.last_modified == self.last_modified,
            file.content_type == self.content_type,
            forall|k: Seq<char>|
                file.metadata.value_of(k) == value_after(
                    self.metadata.value_of(k),
                    source.properties(),
                    source.properties().len() as int,
                    k,
                ),
    {
        let mut file = self;
        source.inject_metadata(&mut file.metadata);
        file
    }

    /// The file as it is shown to a person: its name.
    pub fn to_string(&self) -> (out: String)
        ensures
            out@ == self.name@,
    {
        self.name.clone()
    }
}

impl Filterable for HttpFile {
    open spec fn property(&self, key: Seq<char>) -> ValueView {
        self.metadata.value_of(key)
    }

    fn get(&self, key: &str) -> (value: FilterValue) {
        self.metadata.get(key)
    }
}

impl BackupEntity for HttpFile {
    open spec fn entity_name(&self) -> Seq<char> {
        self.name@
    }

    open spec fn target(&self) -> Seq<char> {
        self.name@
    }

    fn name(&self) -> (name: &str) {
        self.name.as_str()
    }

    fn target_path(&self) -> (path: String) {
        self.name.clone()
    }
}

} // verus!
