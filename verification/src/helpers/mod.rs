//! What the service knows of the remote API.
pub mod client;
pub mod github;

pub use client::GitHubClient;
