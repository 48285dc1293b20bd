//! Policy-driven backups of repositories, release assets and gists.
//!
//! The crate holds the decision logic of the backup service: the filter
//! language, the metadata model, the request and pagination rules of the
//! remote API, the change-detection steps of both engines and the pairing
//! driver. Whatever performs input or output drives these functions from
//! outside and hands them plain values.
pub mod config;
pub mod digest;
pub mod engines;
pub mod entities;
pub mod errors;
pub mod filter;
pub mod helpers;
pub mod http;
pub mod pairing;
pub mod policy;
pub mod sources;
pub mod text;
pub mod time;

pub use entities::BackupEntity;
pub use errors::Error;
pub use filter::{Filter, FilterValue, Filterable};
pub use policy::BackupPolicy;
pub use sources::BackupSource;
