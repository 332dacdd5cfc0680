//! The Git operations that the workspace relies on: which commands are run,
//! and what their output means.

pub mod bare;
pub mod history;
pub mod shell;
pub mod worktree;

pub use bare::{
    clone_bare, fetch_bare, fetch_full, gc, get_default_branch, has_branch, is_partial_clone,
    list_branches, CloneOptions,
};
pub use history::{detect_moves, parse_move_output, MoveEntry};
pub use shell::GitOutput;
pub use shell::{get_head_commit, git_mv, worktree_move, worktree_prune};
pub use worktree::{
    add_worktree, add_worktree_with_tracking, add_worktree_with_tracking_mode,
    check_branch_exists, delete_branch, has_unpushed_commits, list_wald_branches, list_worktrees,
    parse_worktree_list, remove_worktree, BranchMode, WorktreeInfo,
};
