//! `branch`: one more worktree in a baum.

use vstd::prelude::*;
use crate::commands::common::{
    bare_path_of, bare_path_or_failure, branch_mode_of, container_flow, ensure_baum_id,
    ensure_id_flow, find_container, mode_of,
};
use crate::failure::{failure, ErrorKind, Failure};
use crate::flow::{agrees, ask_stat, stat_step, Outcome, PathKind, Progress, Replies, Reply};
use crate::git::worktree::{add_worktree_with_tracking_mode, tracking_flow, BranchMode};
use crate::naming::{dir_name, worktree_dir_name};
use crate::output::{json_unsupported, Output, OutputFormat};
use crate::paths::{join_path, joined};
use crate::report::{say_status, say_success, status_say, success_say};
use crate::text::{cat, cat3};
use crate::types::manifest::{BaumView, WorktreeEntryView};
use crate::workspace::baum::{load_baum, load_baum_flow, save_baum, save_baum_flow};
use crate::workspace::discovery::{collect_baum_ids, collect_ids_flow, Workspace, WorkspaceView};
use crate::workspace::gitignore::{
    add_to_gitignore_flow, add_worktree_to_gitignore, ensure_gitignore_flow,
    ensure_gitignore_section,
};

verus! {

/// What `branch` is asked to do.
#[derive(Debug)]
pub struct BranchOptions {
    /// The container of the baum, as the user named it.
    pub baum_path: String,
    /// The branch to add a worktree for.
    pub branch: String,
    /// Delete a tracking branch that exists and create it anew.
    pub force: bool,
    /// Check out a tracking branch that exists as it is.
    pub reuse: bool,
}

/// The value of a `BranchOptions`.
pub struct BranchOptionsView {
    pub baum_path: Seq<char>,
    pub branch: Seq<char>,
    pub force: bool,
    pub reuse: bool,
}

impl View for BranchOptions {
    type V = BranchOptionsView;

    open spec fn view(&self) -> BranchOptionsView {
        BranchOptionsView {
            baum_path: self.baum_path@,
            branch: self.branch@,
            force: self.force,
            reuse: self.reuse,
        }
    }
}

impl BranchOptions {
    /// How a tracking branch that exists is handled.
    pub fn branch_mode(&self) -> (mode: BranchMode)
        ensures
            mode == mode_of(self.force, self.reuse),
    {
        branch_mode_of(self.force, self.reuse)
    }
}

/// The worktree entry that a baum records for a branch: the directory is
/// named after the branch, and the tracking branch after the baum and the
/// branch.
pub open spec fn tracked_entry(branch: Seq<char>, local: Seq<char>) -> WorktreeEntryView {
    WorktreeEntryView { branch, path: dir_name(branch), local_branch: Some(local) }
}

/// The last part of `branch`: the worktree is created on its tracking
/// branch, the descriptor is saved with the new entry, and the directory is
/// listed in the ignore file of the container.
pub open spec fn branch_worktree_flow(
    ws: WorkspaceView,
    opts: BranchOptionsView,
    out: Output,
    container: Seq<char>,
    bare: Seq<char>,
    baum: BaumView,
    replies: Replies,
    pos: int,
) -> Outcome<()> {
    let name = dir_name(opts.branch);
    match status_say(out, "Adding worktree"@, opts.branch + " -> "@ + name, replies, pos) {
        Outcome::Done(_, p1) => match collect_ids_flow(ws.root, replies, p1) {
            Outcome::Done(taken, p2) => match ensure_id_flow(baum, taken, replies, p2) {
                Outcome::Done((with_id, id), p3) => match tracking_flow(
                    bare,
                    joined(container, name),
                    opts.branch,
                    id,
                    mode_of(opts.force, opts.reuse),
                    replies,
                    p3,
                ) {
                    Outcome::Done(local, p4) => match save_baum_flow(
                        container,
                        with_id.with_worktree(tracked_entry(opts.branch, local)),
                        replies,
                        p4,
                    ) {
                        Outcome::Done(_, p5) => match add_to_gitignore_flow(
                            container,
                            name,
                            replies,
                            p5,
                        ) {
                            Outcome::Done(_, p6) => success_say(
                                out,
                                "Added worktree for branch: "@ + opts.branch,
                                replies,
                                p6,
                            ),
                            Outcome::Ask(q) => Outcome::Ask(q),
                            Outcome::Failed(f) => Outcome::Failed(f),
                        },
                        Outcome::Ask(q) => Outcome::Ask(q),
                        Outcome::Failed(f) => Outcome::Failed(f),
                    },
                    Outcome::Ask(q) => Outcome::Ask(q),
                    Outcome::Failed(f) => Outcome::Failed(f),
                },
                Outcome::Ask(q) => Outcome::Ask(q),
                Outcome::Failed(f) => Outcome::Failed(f),
            },
            Outcome::Ask(q) => Outcome::Ask(q),
            Outcome::Failed(f) => Outcome::Failed(f),
        },
        Outcome::Ask(q) => Outcome::Ask(q),
        Outcome::Failed(f) => Outcome::Failed(f),
    }
}

/// Adding a worktree for a branch to a baum.
///
/// The path must name a baum inside the workspace. A branch that the baum
/// has a worktree for is refused, and so is a baum whose bare clone is
/// missing. Nothing is changed before these checks have passed, but for the
/// managed section of the workspace's ignore file.
pub open spec fn branch_flow(
    ws: WorkspaceView,
    opts: BranchOptionsView,
    out: Output,
    replies: Replies,
    pos: int,
) -> Outcome<()> {
    if out.format == OutputFormat::Json {
        Outcome::Failed(json_unsupported("branch"@))
    } else {
        match container_flow(ws.root, opts.baum_path, replies, pos) {
            Outcome::Done(container, p1) => match ensure_gitignore_flow(ws.root, replies, p1) {
                Outcome::Done(_, p2) => match load_baum_flow(container, replies, p2) {
                    Outcome::Done(baum, p3) => if baum.has_branch(opts.branch) {
                        Outcome::Failed(
                            failure(
                                ErrorKind::Precondition,
                                "worktree for branch '"@ + opts.branch
                                    + "' already exists in baum"@,
                            ),
                        )
                    } else {
                        match bare_path_or_failure(ws, baum.repo_id) {
                            Err(f) => Outcome::Failed(f),
                            Ok(bare) => match stat_step(replies, p3, bare) {
                                Outcome::Done(kind, p4) => if kind == PathKind::Missing {
                                    Outcome::Failed(
                                        failure(
                                            ErrorKind::Filesystem,
                                            "bare repo not found: "@ + bare,
                                        ),
                                    )
                                } else {
                                    branch_worktree_flow(
                                        ws,
                                        opts,
                                        out,
                                        container,
                                        bare,
                                        baum,
                                        replies,
                                        p4,
                                    )
                                },
                                Outcome::Ask(q) => Outcome::Ask(q),
                                Outcome::Failed(f) => Outcome::Failed(f),
                            },
                        }
                    },
                    Outcome::Ask(q) => Outcome::Ask(q),
                    Outcome::Failed(f) => Outcome::Failed(f),
                },
                Outcome::Ask(q) => Outcome::Ask(q),
                Outcome::Failed(f) => Outcome::Failed(f),
            },
            Outcome::Ask(q) => Outcome::Ask(q),
            Outcome::Failed(f) => Outcome::Failed(f),
        }
    }
}

/// Adds a worktree for a branch to an existing baum.
pub fn branch(
    ws: &Workspace,
    opts: &BranchOptions,
    out: &Output,
    replies: &Vec<Reply>,
    pos: &mut usize,
) -> (r: Progress<()>)
    ensures
        agrees(r, *final(pos), branch_flow(ws@, opts@, *out, replies.deep_view(), *old(pos) as int)),
{
    if let Err(f) = out.require_human("branch") {
        return Progress::Failed(f);
    }
    let container = match find_container(
        ws.root.as_str(),
        opts.baum_path.as_str(),
        replies,
        pos,
    ) {
        Progress::Done(c) => c,
        Progress::Ask(q) => {
            return Progress::Ask(q);
        },
        Progress::Failed(f) => {
            return Progress::Failed(f);
        },
    };
    match ensure_gitignore_section(ws.root.as_str(), replies, pos) {
        Progress::Done(_) => {},
        Progress::Ask(q) => {
            return Progress::Ask(q);
        },
        Progress::Failed(f) => {
            return Progress::Failed(f);
        },
    }
    let baum = match load_baum(container.as_str(), replies, pos) {
        Progress::Done(b) => b,
        Progress::Ask(q) => {
            return Progress::Ask(q);
        },
        Progress::Failed(f) => {
            return Progress::Failed(f);
        },
    };
    if baum.has_branch(opts.branch.as_str()) {
        return Progress::Failed(
            Failure::new(
                ErrorKind::Precondition,
                cat3("worktree for branch '", opts.branch.as_str(), "' already exists in baum"),
            ),
        );
    }
    let bare = match bare_path_of(ws, baum.repo_id.as_str()) {
        Ok(p) => p,
        Err(f) => {
            return Progress::Failed(f);
        },
    };
    match ask_stat(replies, pos, bare.as_str()) {
        Progress::Done(kind) => {
            if kind == PathKind::Missing {
                return Progress::Failed(
                    Failure::new(ErrorKind::Filesystem, cat("bare repo not found: ", bare.as_str())),
                );
            }
        },
        Progress::Ask(q) => {
            return Progress::Ask(q);
        },
        Progress::Failed(f) => {
            return Progress::Failed(f);
        },
    }
    let name = worktree_dir_name(opts.branch.as_str());
    let target = cat3(opts.branch.as_str(), " -> ", name.as_str());
    match say_status(out, "Adding worktree", target.as_str(), replies, pos) {
        Progress::Done(_) => {},
        Progress::Ask(q) => {
            return Progress::Ask(q);
        },
        Progress::Failed(f) => {
            return Progress::Failed(f);
        },
    }
    let taken = match collect_baum_ids(ws.root.as_str(), replies, pos) {
        Progress::Done(t) => t,
        Progress::Ask(q) => {
            return Progress::Ask(q);
        },
        Progress::Failed(f) => {
            return Progress::Failed(f);
        },
    };
    let (mut baum, id) = match ensure_baum_id(baum, &taken, replies, pos) {
        Progress::Done(pair) => pair,
        Progress::Ask(q) => {
            return Progress::Ask(q);
        },
        Progress::Failed(f) => {
            return Progress::Failed(f);
        },
    };
    let worktree_path = join_path(container.as_str(), name.as_str());
    let local = match add_worktree_with_tracking_mode(
        bare.as_str(),
        worktree_path.as_str(),
        opts.branch.as_str(),
        id.as_str(),
        opts.branch_mode(),
        replies,
        pos,
    ) {
        Progress::Done(l) => l,
        Progress::Ask(q) => {
            return Progress::Ask(q);
        },
        Progress::Failed(f) => {
            return Progress::Failed(f);
        },
    };
    baum.add_worktree_with_local(opts.branch.as_str(), name.as_str(), local.as_str());
    match save_baum(container.as_str(), &baum, replies, pos) {
        Progress::Done(_) => {},
        Progress::Ask(q) => {
            return Progress::Ask(q);
        },
        Progress::Failed(f) => {
            return Progress::Failed(f);
        },
    }
    match add_worktree_to_gitignore(container.as_str(), name.as_str(), replies, pos) {
        Progress::Done(_) => {},
        Progress::Ask(q) => {
            return Progress::Ask(q);
        },
        Progress::Failed(f) => {
            return Progress::Failed(f);
        },
    }
    let message = cat("Added worktree for branch: ", opts.branch.as_str());
    say_success(out, message.as_str(), replies, pos)
}

} // verus!
