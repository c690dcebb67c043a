//! Looks up release metadata (the latest release, or the release of a given
//! tag) in a GitHub-style releases API.
//!
//! The library builds the request target, and turns the registry's answer
//! (status code and body bytes) into a [`ReleaseInfo`] or a typed error.
//! Sending the request is left to the caller.
pub mod config;
pub mod error;
pub mod handler;
pub mod release;

pub use config::ReleaseInfoSourceType;
pub use error::{AuError, JsonFault};
pub use handler::VersionHandler;
pub use release::ReleaseInfo;
