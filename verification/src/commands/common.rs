//! Steps that several commands share.

use vstd::prelude::*;
use crate::failure::{failure, ErrorKind, Failure, FailureView};
use crate::flow::{
    agrees, ask_fresh_id, fresh_id_step, Outcome, Progress, Replies, Reply,
};
use crate::git::worktree::BranchMode;
use crate::string_set::StringSet;
use crate::text::cat3;
use crate::types::manifest::{BaumManifest, BaumView};
use crate::types::repo_id::error_text;
use crate::workspace::baum::{is_baum, is_baum_flow};
use crate::workspace::discovery::{Workspace, WorkspaceView};
use crate::workspace::path_safety::{validate_flow, validate_workspace_path};

verus! {

/// The mode that the flags of a command ask for: `--force` before
/// `--reuse`, and the default where neither is given.
pub open spec fn mode_of(force: bool, reuse: bool) -> BranchMode {
    if force {
        BranchMode::Force
    } else if reuse {
        BranchMode::Reuse
    } else {
        BranchMode::Default
    }
}

/// Works out the mode that the flags of a command ask for.
pub fn branch_mode_of(force: bool, reuse: bool) -> (mode: BranchMode)
    ensures
        mode == mode_of(force, reuse),
{
    if force {
        BranchMode::Force
    } else if reuse {
        BranchMode::Reuse
    } else {
        BranchMode::Default
    }
}

/// The error of a path that is no baum.
pub open spec fn not_a_baum(container: Seq<char>) -> FailureView {
    failure(
        ErrorKind::Precondition,
        "not a baum: "@ + container + " (.baum directory not found)"@,
    )
}

/// The container that a user path names: the path validated, and a baum.
pub open spec fn container_flow(root: Seq<char>, path: Seq<char>, replies: Replies, pos: int)
    -> Outcome<Seq<char>> {
    match validate_flow(root, path, replies, pos) {
        Outcome::Done(container, p1) => match is_baum_flow(container, replies, p1) {
            Outcome::Done(planted, p2) => if planted {
                Outcome::Done(container, p2)
            } else {
                Outcome::Failed(not_a_baum(container))
            },
            Outcome::Ask(q) => Outcome::Ask(q),
            Outcome::Failed(f) => Outcome::Failed(f),
        },
        Outcome::Ask(q) => Outcome::Ask(q),
        Outcome::Failed(f) => Outcome::Failed(f),
    }
}

/// Validates a user path and checks that it names a baum.
pub fn find_container(root: &str, path: &str, replies: &Vec<Reply>, pos: &mut usize) -> (r: Progress<
    String,
>)
    ensures
        agrees(r, *final(pos), container_flow(root@, path@, replies.deep_view(), *old(pos) as int)),
{
    let container = match validate_workspace_path(root, path, replies, pos) {
        Progress::Done(c) => c,
        Progress::Ask(q) => {
            return Progress::Ask(q);
        },
        Progress::Failed(f) => {
            return Progress::Failed(f);
        },
    };
    match is_baum(container.as_str(), replies, pos) {
        Progress::Done(planted) => if planted {
            Progress::Done(container)
        } else {
            Progress::Failed(
                Failure::new(
                    ErrorKind::Precondition,
                    cat3("not a baum: ", container.as_str(), " (.baum directory not found)"),
                ),
            )
        },
        Progress::Ask(q) => Progress::Ask(q),
        Progress::Failed(f) => Progress::Failed(f),
    }
}

/// The path of the bare clone of a repository, or the error of an ID that
/// does not parse.
pub open spec fn bare_path_or_failure(ws: WorkspaceView, repo_id: Seq<char>) -> Result<
    Seq<char>,
    FailureView,
> {
    match ws.bare_repo_path(repo_id) {
        Ok(p) => Ok(p),
        Err(e) => Err(failure(ErrorKind::UserInput, error_text(e))),
    }
}

/// The path of the bare clone of a repository, or the error of an ID that
/// does not parse.
pub fn bare_path_of(ws: &Workspace, repo_id: &str) -> (r: Result<String, Failure>)
    ensures
        match r {
            Ok(p) => bare_path_or_failure(ws@, repo_id@) == Ok::<Seq<char>, FailureView>(p@),
            Err(f) => bare_path_or_failure(ws@, repo_id@) == Err::<Seq<char>, FailureView>(f@),
        },
{
    match ws.bare_repo_path(repo_id) {
        Ok(p) => Ok(p),
        Err(e) => Err(Failure::new(ErrorKind::UserInput, e.message())),
    }
}

/// The descriptor with an ID, and that ID: the ID that the descriptor has,
/// or a fresh one that is none of the taken ones.
pub open spec fn ensure_id_flow(baum: BaumView, taken: Seq<Seq<char>>, replies: Replies, pos: int)
    -> Outcome<(BaumView, Seq<char>)> {
    match baum.id {
        Some(id) => Outcome::Done((baum, id), pos),
        None => match fresh_id_step(replies, pos, taken) {
            Outcome::Done(id, next) => Outcome::Done((BaumView { id: Some(id), ..baum }, id), next),
            Outcome::Ask(q) => Outcome::Ask(q),
            Outcome::Failed(f) => Outcome::Failed(f),
        },
    }
}

/// Gives the descriptor an ID where it has none.
pub fn ensure_baum_id(baum: BaumManifest, taken: &StringSet, replies: &Vec<Reply>, pos: &mut usize) -> (r:
    Progress<(BaumManifest, String)>)
    ensures
        agrees(
            r,
            *final(pos),
            ensure_id_flow(baum@, taken.listing(), replies.deep_view(), *old(pos) as int),
        ),
{
    let mut baum = baum;
    match &baum.id {
        Some(id) => {
            let id = id.clone();
            Progress::Done((baum, id))
        },
        None => match ask_fresh_id(replies, pos, taken) {
            Progress::Done(id) => {
                baum.id = Some(id.clone());
                Progress::Done((baum, id))
            },
            Progress::Ask(q) => Progress::Ask(q),
            Progress::Failed(f) => Progress::Failed(f),
        },
    }
}

} // verus!
