//! The documents of a workspace: repository identifiers, the central
//! registry, baum descriptors, configuration and sync state.

pub mod config;
pub mod manifest;
pub mod repo_id;
pub mod state;

pub use config::Config;
pub use manifest::{
    BaumManifest, DepthPolicy, FilterPolicy, LfsPolicy, Manifest, RepoEntry, ResolveResult,
    WorktreeEntry,
};
pub use repo_id::{RepoId, RepoIdError};
pub use state::SyncState;
