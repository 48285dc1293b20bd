//! The things that are backed up, and what is known about them.
use vstd::prelude::*;

pub mod credentials;
pub mod git_repo;
pub mod http_file;
pub mod metadata;

pub use credentials::Credentials;
pub use git_repo::GitRepo;
pub use http_file::HttpFile;
pub use metadata::{Metadata, MetadataSource};

use crate::filter::value::Filterable;

verus! {

/// Something that can be backed up: it has a name, a place below the root
/// of the backups, and properties for filters to ask about.
pub trait BackupEntity: Filterable {
    /// The name of the entity.
    open spec fn entity_name(&self) -> Seq<char> {
        arbitrary()
    }

    /// The path of the entity below the root of the backups.
    open spec fn target(&self) -> Seq<char> {
        arbitrary()
    }

    /// The name of the entity.
    fn name(&self) -> (name: &str)
        ensures
            name@ == self.entity_name(),
    ;

    /// The path of the entity below the root of the backups.
    fn target_path(&self) -> (path: String)
        ensures
            path@ == self.target(),
    ;
}

} // verus!
