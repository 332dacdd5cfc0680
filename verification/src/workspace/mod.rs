//! The workspace on disk: its ignore files, its paths, its baums.

pub mod baum;
pub mod discovery;
pub mod gitignore;
pub mod path_safety;

pub use baum::{create_baum, is_baum, load_baum, save_baum};
pub use discovery::{
    collect_baum_ids, find_all_baums, find_workspace_root, find_workspace_root_from, Workspace,
};
pub use gitignore::{add_worktree_to_gitignore, ensure_gitignore_section};
pub use path_safety::validate_workspace_path;
