use vstd::prelude::*;

verus! {

/// The shape of release registry that a [`crate::VersionHandler`] talks to.
#[derive(Clone, Copy, Debug, PartialEq, Eq, Structural)]
pub enum ReleaseInfoSourceType {
    /// A GitHub releases API (`.../repos/{owner}/{repo}/releases`).
    TelosGithub,
}

impl ReleaseInfoSourceType {
    /// Whether a handler can be built for this kind of registry.
    pub open spec fn is_supported(self) -> bool {
        self == ReleaseInfoSourceType::TelosGithub
    }
}

} // verus!
