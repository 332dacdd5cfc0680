//! The operations of the command line, one module each.

pub mod branch;
pub mod clone;
pub mod common;
pub mod doctor;
pub mod init;
pub mod move_cmd;
pub mod plant;
pub mod prune;
pub mod repo;
pub mod status;
pub mod sync;
pub mod uproot;
pub mod worktrees;

pub use branch::{branch, BranchOptions};
pub use plant::{plant, PlantOptions};
pub use prune::{prune, prune_branches, Cleanup, PruneOptions};
pub use sync::{move_worktrees_with_git, replay_move, sync, ReplayAction, SyncOptions};
pub use uproot::{uproot, UprootOptions};
pub use move_cmd::{move_baum, MoveOptions};
pub use repo::{
    repo_add, repo_fetch, repo_gc, repo_list, repo_remove, RepoAddOptions, RepoFetchOptions,
    RepoGcOptions,
};
pub use clone::{clone, extract_repo_name};
pub use init::{init, InitOptions};
pub use doctor::{
    apply_fix, check_baum, doctor, paths_equal, DoctorOptions, FixAction, Issue, Severity,
};
pub use status::{status, StatusReport};
pub use worktrees::{worktrees, WorktreeDisplay, WorktreesOptions};
