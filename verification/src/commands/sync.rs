//! `sync`: the workspace is brought up to date with its remote, and the
//! moves of containers that came with the update are replayed.
//!
//! The outer repository tracks the descriptor of a baum, not its
//! worktrees. When a container was moved elsewhere, a pull moves the
//! descriptor and leaves the worktrees behind. The replay moves them after
//! it with `git worktree move`, which keeps the registry of the bare clone
//! in step.

use vstd::prelude::*;
use crate::commands::common::{bare_path_of, bare_path_or_failure};
use crate::decimal::{decimal_text, format_decimal};
use crate::failure::{failure, ErrorKind, Failure};
use crate::flow::{
    agrees, ask_done, ask_flag, ask_git, ask_stat, done_step, exchange, flag_step, git_step,
    reply_at, stat_step, Outcome, PathKind, Progress, Replies, Reply, ReplyView, Request,
    RequestView,
};
use crate::git::history::{
    detect_moves, detect_moves_args, parsed_moves, MoveEntry, MoveEntryView,
};
use crate::git::shell::{
    get_head_commit, git_args, git_c, head_commit_flow, stderr_message, str_contains,
    with_stderr,
};
use crate::output::Output;
use crate::paths::{join_path, joined, parent, parent_of};
use crate::report::{
    info_say, say_info, say_status, say_success, say_warn, status_say, success_say, warn_say,
};
use crate::split::{trim, trim_str};
use crate::text::{cat, cat3, cat4, cat5, contains_sub, str_eq};
use crate::types::manifest::{WorktreeEntry, WorktreeEntryView};
use crate::types::state::SyncState;
use crate::workspace::baum::{is_baum, is_baum_flow, load_baum, load_baum_flow};
use crate::workspace::discovery::{save_state_flow, Workspace, WorkspaceView};

verus! {

/// What `sync` is asked to do.
#[derive(Debug, Clone, Copy, PartialEq, Eq, Structural)]
pub struct SyncOptions {
    /// Show what would be done, and change nothing.
    pub dry_run: bool,
    /// Go on where the workspace has diverged from its remote.
    pub force: bool,
    /// Push after the sync.
    pub push: bool,
}

/// What the replay does about one move.
#[derive(Debug, Clone, Copy, PartialEq, Eq, Structural)]
pub enum ReplayAction {
    /// Nothing: the old path is gone.
    Nothing,
    /// The descriptor and the worktrees move from the old path to the new.
    MoveBaum,
    /// The descriptor has moved already; the worktrees follow it.
    MoveWorktrees,
    /// Both paths are baums: a conflict that is warned about and skipped.
    ConflictBaums,
    /// Both paths exist and do not fit together: warned about and skipped.
    ConflictExists,
    /// The old path is no baum: warned about and skipped.
    NotABaum,
}

/// The replay decision, from what stands at the old and at the new path.
///
/// | old exists | new exists | old is baum | new is baum | action |
/// |:-:|:-:|:-:|:-:|---|
/// | no | – | – | – | nothing |
/// | yes | no | yes | – | move the baum |
/// | yes | no | no | – | not a baum |
/// | yes | yes | no | yes | move the worktrees |
/// | yes | yes | yes | yes | conflict of baums |
/// | yes | yes | – | no | conflict |
pub open spec fn replay_decision(
    old_exists: bool,
    new_exists: bool,
    old_is_baum: bool,
    new_is_baum: bool,
) -> ReplayAction {
    if !old_exists {
        ReplayAction::Nothing
    } else if !new_exists {
        if old_is_baum {
            ReplayAction::MoveBaum
        } else {
            ReplayAction::NotABaum
        }
    } else if !new_is_baum {
        ReplayAction::ConflictExists
    } else if old_is_baum {
        ReplayAction::ConflictBaums
    } else {
        ReplayAction::MoveWorktrees
    }
}

/// Decides what the replay does about one move.
pub fn decide_replay(old_exists: bool, new_exists: bool, old_is_baum: bool, new_is_baum: bool) -> (a:
    ReplayAction)
    ensures
        a == replay_decision(old_exists, new_exists, old_is_baum, new_is_baum),
{
    if !old_exists {
        ReplayAction::Nothing
    } else if !new_exists {
        if old_is_baum {
            ReplayAction::MoveBaum
        } else {
            ReplayAction::NotABaum
        }
    } else if !new_is_baum {
        ReplayAction::ConflictExists
    } else if old_is_baum {
        ReplayAction::ConflictBaums
    } else {
        ReplayAction::MoveWorktrees
    }
}

/// Moving a worktree, as far as that goes: what went wrong, if anything
/// did.
pub open spec fn try_move_flow(
    bare: Seq<char>,
    from: Seq<char>,
    to: Seq<char>,
    replies: Replies,
    pos: int,
) -> Outcome<Option<Seq<char>>> {
    let message = "failed to move worktree from "@ + from + " to "@ + to;
    match reply_at(replies, pos) {
        None => Outcome::Ask(RequestView::Git(git_c(bare, seq!["worktree"@, "move"@, from, to]))),
        Some(ReplyView::Git(run)) => if run.success {
            Outcome::Done(None, pos + 1)
        } else {
            Outcome::Done(Some(with_stderr(message, run.stderr)), pos + 1)
        },
        Some(_) => Outcome::Done(Some(message), pos + 1),
    }
}

fn try_worktree_move(bare: &str, from: &str, to: &str, replies: &Vec<Reply>, pos: &mut usize) -> (r:
    Progress<Option<String>>)
    ensures
        agrees(
            r,
            *final(pos),
            try_move_flow(bare@, from@, to@, replies.deep_view(), *old(pos) as int),
        ),
{
    let rest = vec!["worktree", "move", from, to];
    assert(rest.deep_view() == seq!["worktree"@, "move"@, from@, to@]);
    let message = cat4("failed to move worktree from ", from, " to ", to);
    match exchange(replies, pos, Request::Git(git_args(bare, rest))) {
        Err(q) => Progress::Ask(q),
        Ok(Reply::Git(run)) => if run.success {
            Progress::Done(None)
        } else {
            Progress::Done(Some(stderr_message(message.as_str(), run)))
        },
        Ok(_) => Progress::Done(Some(message)),
    }
}

/// Moving one worktree after its container. A worktree that is not at the
/// old place, or that is at the new place already, stays. A move that fails
/// is warned about, and the replay goes on.
pub open spec fn follow_worktree_flow(
    out: Output,
    bare: Seq<char>,
    old_container: Seq<char>,
    new_container: Seq<char>,
    entry: WorktreeEntryView,
    replies: Replies,
    pos: int,
) -> Outcome<()> {
    let from = joined(old_container, entry.path);
    let to = joined(new_container, entry.path);
    match stat_step(replies, pos, from) {
        Outcome::Done(there, p1) => if there == PathKind::Missing {
            Outcome::Done((), p1)
        } else {
            match stat_step(replies, p1, to) {
                Outcome::Done(taken, p2) => if taken != PathKind::Missing {
                    Outcome::Done((), p2)
                } else {
                    match try_move_flow(bare, from, to, replies, p2) {
                        Outcome::Done(None, p3) => status_say(
                            out,
                            "Moved"@,
                            "worktree "@ + from + " -> "@ + to,
                            replies,
                            p3,
                        ),
                        Outcome::Done(Some(cause), p3) => warn_say(
                            out,
                            "Failed to move worktree "@ + entry.path + ": "@ + cause,
                            replies,
                            p3,
                        ),
                        Outcome::Ask(q) => Outcome::Ask(q),
                        Outcome::Failed(f) => Outcome::Failed(f),
                    }
                },
                Outcome::Ask(q) => Outcome::Ask(q),
                Outcome::Failed(f) => Outcome::Failed(f),
            }
        },
        Outcome::Ask(q) => Outcome::Ask(q),
        Outcome::Failed(f) => Outcome::Failed(f),
    }
}

/// Moving the worktrees from index `from` on after their container, in the
/// order of the descriptor.
pub open spec fn follow_worktrees_flow(
    out: Output,
    bare: Seq<char>,
    old_container: Seq<char>,
    new_container: Seq<char>,
    worktrees: Seq<WorktreeEntryView>,
    from: int,
    replies: Replies,
    pos: int,
) -> Outcome<()>
    decreases worktrees.len() - from,
{
    if from < 0 || from >= worktrees.len() {
        Outcome::Done((), pos)
    } else {
        match follow_worktree_flow(
            out,
            bare,
            old_container,
            new_container,
            worktrees[from],
            replies,
            pos,
        ) {
            Outcome::Done(_, next) => follow_worktrees_flow(
                out,
                bare,
                old_container,
                new_container,
                worktrees,
                from + 1,
                replies,
                next,
            ),
            Outcome::Ask(q) => Outcome::Ask(q),
            Outcome::Failed(f) => Outcome::Failed(f),
        }
    }
}

fn follow_worktree(
    out: &Output,
    bare: &str,
    old_container: &str,
    new_container: &str,
    entry: &WorktreeEntry,
    replies: &Vec<Reply>,
    pos: &mut usize,
) -> (r: Progress<()>)
    ensures
        agrees(
            r,
            *final(pos),
            follow_worktree_flow(
                *out,
                bare@,
                old_container@,
                new_container@,
                entry@,
                replies.deep_view(),
                *old(pos) as int,
            ),
        ),
{
    let from = join_path(old_container, entry.path.as_str());
    let to = join_path(new_container, entry.path.as_str());
    match ask_stat(replies, pos, from.as_str()) {
        Progress::Done(kind) => {
            if kind == PathKind::Missing {
                return Progress::Done(());
            }
        },
        Progress::Ask(q) => {
            return Progress::Ask(q);
        },
        Progress::Failed(f) => {
            return Progress::Failed(f);
        },
    }
    match ask_stat(replies, pos, to.as_str()) {
        Progress::Done(kind) => {
            if kind != PathKind::Missing {
                return Progress::Done(());
            }
        },
        Progress::Ask(q) => {
            return Progress::Ask(q);
        },
        Progress::Failed(f) => {
            return Progress::Failed(f);
        },
    }
    match try_worktree_move(bare, from.as_str(), to.as_str(), replies, pos) {
        Progress::Done(None) => {
            let target = cat4("worktree ", from.as_str(), " -> ", to.as_str());
            say_status(out, "Moved", target.as_str(), replies, pos)
        },
        Progress::Done(Some(cause)) => {
            let message = cat4("Failed to move worktree ", entry.path.as_str(), ": ", cause.as_str());
            say_warn(out, message.as_str(), replies, pos)
        },
        Progress::Ask(q) => Progress::Ask(q),
        Progress::Failed(f) => Progress::Failed(f),
    }
}

/// Moves the worktrees of a baum after their container with `git worktree
/// move`, so that the registry of the bare clone follows.
pub fn move_worktrees_with_git(
    bare_path: &str,
    old_container: &str,
    new_container: &str,
    worktrees: &Vec<WorktreeEntry>,
    out: &Output,
    replies: &Vec<Reply>,
    pos: &mut usize,
) -> (r: Progress<()>)
    ensures
        agrees(
            r,
            *final(pos),
            follow_worktrees_flow(
                *out,
                bare_path@,
                old_container@,
                new_container@,
                worktrees.deep_view(),
                0,
                replies.deep_view(),
                *old(pos) as int,
            ),
        ),
{
    let mut i: usize = 0;
    let ghost begin = *pos as int;
    while i < worktrees.len()
        invariant
            i <= worktrees.len(),
            begin == *old(pos) as int,
            follow_worktrees_flow(
                *out,
                bare_path@,
                old_container@,
                new_container@,
                worktrees.deep_view(),
                0,
                replies.deep_view(),
                begin,
            ) == follow_worktrees_flow(
                *out,
                bare_path@,
                old_container@,
                new_container@,
                worktrees.deep_view(),
                i as int,
                replies.deep_view(),
                *pos as int,
            ),
        decreases worktrees.len() - i,
    {
        assert(worktrees.deep_view()[i as int] == worktrees[i as int]@);
        match follow_worktree(
            out,
            bare_path,
            old_container,
            new_container,
            &worktrees[i],
            replies,
            pos,
        ) {
            Progress::Done(_) => {},
            Progress::Ask(q) => {
                return Progress::Ask(q);
            },
            Progress::Failed(f) => {
                return Progress::Failed(f);
            },
        }
        i += 1;
    }
    Progress::Done(())
}

/// Removing a directory if it is empty.
pub open spec fn remove_if_empty_flow(path: Seq<char>, replies: Replies, pos: int) -> Outcome<()> {
    match flag_step(replies, pos, RequestView::IsEmpty(path), "failed to read "@ + path) {
        Outcome::Done(empty, next) => if empty {
            done_step(
                replies,
                next,
                RequestView::RemoveDir(path),
                ErrorKind::Filesystem,
                "failed to remove "@ + path,
            )
        } else {
            Outcome::Done((), next)
        },
        Outcome::Ask(q) => Outcome::Ask(q),
        Outcome::Failed(f) => Outcome::Failed(f),
    }
}

/// Removes a directory if it is empty.
pub fn remove_if_empty(path: &str, replies: &Vec<Reply>, pos: &mut usize) -> (r: Progress<()>)
    ensures
        agrees(r, *final(pos), remove_if_empty_flow(path@, replies.deep_view(), *old(pos) as int)),
{
    let context = cat("failed to read ", path);
    match ask_flag(replies, pos, Request::IsEmpty(path.to_owned()), context.as_str()) {
        Progress::Done(empty) => {
            if empty {
                let context = cat("failed to remove ", path);
                ask_done(
                    replies,
                    pos,
                    Request::RemoveDir(path.to_owned()),
                    ErrorKind::Filesystem,
                    context.as_str(),
                )
            } else {
                Progress::Done(())
            }
        },
        Progress::Ask(q) => Progress::Ask(q),
        Progress::Failed(f) => Progress::Failed(f),
    }
}

/// The worktrees that were left behind follow the descriptor to the new
/// place, and the old place goes if nothing is left in it.
pub open spec fn move_left_behind_flow(
    ws: WorkspaceView,
    out: Output,
    old_abs: Seq<char>,
    new_abs: Seq<char>,
    replies: Replies,
    pos: int,
) -> Outcome<()> {
    match load_baum_flow(new_abs, replies, pos) {
        Outcome::Done(baum, p1) => match bare_path_or_failure(ws, baum.repo_id) {
            Err(f) => Outcome::Failed(f),
            Ok(bare) => match follow_worktrees_flow(
                out,
                bare,
                old_abs,
                new_abs,
                baum.worktrees,
                0,
                replies,
                p1,
            ) {
                Outcome::Done(_, p2) => remove_if_empty_flow(old_abs, replies, p2),
                Outcome::Ask(q) => Outcome::Ask(q),
                Outcome::Failed(f) => Outcome::Failed(f),
            },
        },
        Outcome::Ask(q) => Outcome::Ask(q),
        Outcome::Failed(f) => Outcome::Failed(f),
    }
}

/// The whole baum moves: the directory above the new place is created, the
/// descriptor is moved, the worktrees follow, and the old place goes if it
/// is still there and nothing is left in it.
pub open spec fn move_whole_baum_flow(
    ws: WorkspaceView,
    out: Output,
    old_abs: Seq<char>,
    new_abs: Seq<char>,
    replies: Replies,
    pos: int,
) -> Outcome<()> {
    match load_baum_flow(old_abs, replies, pos) {
        Outcome::Done(baum, p1) => match bare_path_or_failure(ws, baum.repo_id) {
            Err(f) => Outcome::Failed(f),
            Ok(bare) => {
                let made = match parent(new_abs) {
                    Some(dir) => done_step(
                        replies,
                        p1,
                        RequestView::MakeDirs(dir),
                        ErrorKind::Filesystem,
                        "failed to create "@ + dir,
                    ),
                    None => Outcome::Done((), p1),
                };
                match made {
                    Outcome::Done(_, p2) => match done_step(
                        replies,
                        p2,
                        RequestView::MakeDirs(new_abs),
                        ErrorKind::Filesystem,
                        "failed to create "@ + new_abs,
                    ) {
                        Outcome::Done(_, p3) => match done_step(
                            replies,
                            p3,
                            RequestView::Rename(joined(old_abs, ".baum"@), joined(new_abs, ".baum"@)),
                            ErrorKind::Filesystem,
                            "failed to move "@ + joined(old_abs, ".baum"@),
                        ) {
                            Outcome::Done(_, p4) => match follow_worktrees_flow(
                                out,
                                bare,
                                old_abs,
                                new_abs,
                                baum.worktrees,
                                0,
                                replies,
                                p4,
                            ) {
                                Outcome::Done(_, p5) => match stat_step(replies, p5, old_abs) {
                                    Outcome::Done(kind, p6) => if kind == PathKind::Missing {
                                        Outcome::Done((), p6)
                                    } else {
                                        remove_if_empty_flow(old_abs, replies, p6)
                                    },
                                    Outcome::Ask(q) => Outcome::Ask(q),
                                    Outcome::Failed(f) => Outcome::Failed(f),
                                },
                                Outcome::Ask(q) => Outcome::Ask(q),
                                Outcome::Failed(f) => Outcome::Failed(f),
                            },
                            Outcome::Ask(q) => Outcome::Ask(q),
                            Outcome::Failed(f) => Outcome::Failed(f),
                        },
                        Outcome::Ask(q) => Outcome::Ask(q),
                        Outcome::Failed(f) => Outcome::Failed(f),
                    },
                    Outcome::Ask(q) => Outcome::Ask(q),
                    Outcome::Failed(f) => Outcome::Failed(f),
                }
            },
        },
        Outcome::Ask(q) => Outcome::Ask(q),
        Outcome::Failed(f) => Outcome::Failed(f),
    }
}

/// What stands at a path for the replay: whether anything does, and
/// whether it is a baum.
pub open spec fn probe_flow(path: Seq<char>, replies: Replies, pos: int) -> Outcome<(bool, bool)> {
    match stat_step(replies, pos, path) {
        Outcome::Done(kind, p1) => match is_baum_flow(path, replies, p1) {
            Outcome::Done(planted, p2) => Outcome::Done((kind != PathKind::Missing, planted), p2),
            Outcome::Ask(q) => Outcome::Ask(q),
            Outcome::Failed(f) => Outcome::Failed(f),
        },
        Outcome::Ask(q) => Outcome::Ask(q),
        Outcome::Failed(f) => Outcome::Failed(f),
    }
}

fn probe(path: &str, replies: &Vec<Reply>, pos: &mut usize) -> (r: Progress<(bool, bool)>)
    ensures
        agrees(r, *final(pos), probe_flow(path@, replies.deep_view(), *old(pos) as int)),
{
    let kind = match ask_stat(replies, pos, path) {
        Progress::Done(k) => k,
        Progress::Ask(q) => {
            return Progress::Ask(q);
        },
        Progress::Failed(f) => {
            return Progress::Failed(f);
        },
    };
    match is_baum(path, replies, pos) {
        Progress::Done(planted) => Progress::Done((kind != PathKind::Missing, planted)),
        Progress::Ask(q) => Progress::Ask(q),
        Progress::Failed(f) => Progress::Failed(f),
    }
}

/// Replaying one move of a container from `old_path` to `new_path`, both
/// relative to the workspace root: both places are looked at, the decision
/// is taken, and the action is carried out.
pub open spec fn replay_flow(
    ws: WorkspaceView,
    out: Output,
    old_path: Seq<char>,
    new_path: Seq<char>,
    replies: Replies,
    pos: int,
) -> Outcome<()> {
    let old_abs = joined(ws.root, old_path);
    let new_abs = joined(ws.root, new_path);
    match probe_flow(old_abs, replies, pos) {
        Outcome::Done((old_exists, old_is_baum), p1) => match probe_flow(new_abs, replies, p1) {
            Outcome::Done((new_exists, new_is_baum), p2) => match replay_decision(
                old_exists,
                new_exists,
                old_is_baum,
                new_is_baum,
            ) {
                ReplayAction::Nothing => Outcome::Done((), p2),
                ReplayAction::MoveBaum => move_whole_baum_flow(
                    ws,
                    out,
                    old_abs,
                    new_abs,
                    replies,
                    p2,
                ),
                ReplayAction::MoveWorktrees => move_left_behind_flow(
                    ws,
                    out,
                    old_abs,
                    new_abs,
                    replies,
                    p2,
                ),
                ReplayAction::ConflictBaums => warn_say(
                    out,
                    "Move conflict: both "@ + old_path + " and "@ + new_path + " are baums"@,
                    replies,
                    p2,
                ),
                ReplayAction::ConflictExists => warn_say(
                    out,
                    "Move conflict: both "@ + old_path + " and "@ + new_path + " exist"@,
                    replies,
                    p2,
                ),
                ReplayAction::NotABaum => warn_say(
                    out,
                    "Not a baum, skipping: "@ + old_path,
                    replies,
                    p2,
                ),
            },
            Outcome::Ask(q) => Outcome::Ask(q),
            Outcome::Failed(f) => Outcome::Failed(f),
        },
        Outcome::Ask(q) => Outcome::Ask(q),
        Outcome::Failed(f) => Outcome::Failed(f),
    }
}

fn move_left_behind(
    ws: &Workspace,
    out: &Output,
    old_abs: &str,
    new_abs: &str,
    replies: &Vec<Reply>,
    pos: &mut usize,
) -> (r: Progress<()>)
    ensures
        agrees(
            r,
            *final(pos),
            move_left_behind_flow(
                ws@,
                *out,
                old_abs@,
                new_abs@,
                replies.deep_view(),
                *old(pos) as int,
            ),
        ),
{
    let baum = match load_baum(new_abs, replies, pos) {
        Progress::Done(b) => b,
        Progress::Ask(q) => {
            return Progress::Ask(q);
        },
        Progress::Failed(f) => {
            return Progress::Failed(f);
        },
    };
    let bare = match bare_path_of(ws, baum.repo_id.as_str()) {
        Ok(p) => p,
        Err(f) => {
            return Progress::Failed(f);
        },
    };
    match move_worktrees_with_git(
        bare.as_str(),
        old_abs,
        new_abs,
        &baum.worktrees,
        out,
        replies,
        pos,
    ) {
        Progress::Done(_) => {},
        Progress::Ask(q) => {
            return Progress::Ask(q);
        },
        Progress::Failed(f) => {
            return Progress::Failed(f);
        },
    }
    remove_if_empty(old_abs, replies, pos)
}

fn move_whole_baum(
    ws: &Workspace,
    out: &Output,
    old_abs: &str,
    new_abs: &str,
    replies: &Vec<Reply>,
    pos: &mut usize,
) -> (r: Progress<()>)
    ensures
        agrees(
            r,
            *final(pos),
            move_whole_baum_flow(
                ws@,
                *out,
                old_abs@,
                new_abs@,
                replies.deep_view(),
                *old(pos) as int,
            ),
        ),
{
    let baum = match load_baum(old_abs, replies, pos) {
        Progress::Done(b) => b,
        Progress::Ask(q) => {
            return Progress::Ask(q);
        },
        Progress::Failed(f) => {
            return Progress::Failed(f);
        },
    };
    let bare = match bare_path_of(ws, baum.repo_id.as_str()) {
        Ok(p) => p,
        Err(f) => {
            return Progress::Failed(f);
        },
    };
    if let Some(dir) = parent_of(new_abs) {
        let context = cat("failed to create ", dir.as_str());
        match ask_done(replies, pos, Request::MakeDirs(dir), ErrorKind::Filesystem, context.as_str()) {
            Progress::Done(_) => {},
            Progress::Ask(q) => {
                return Progress::Ask(q);
            },
            Progress::Failed(f) => {
                return Progress::Failed(f);
            },
        }
    }
    let context = cat("failed to create ", new_abs);
    match ask_done(
        replies,
        pos,
        Request::MakeDirs(new_abs.to_owned()),
        ErrorKind::Filesystem,
        context.as_str(),
    ) {
        Progress::Done(_) => {},
        Progress::Ask(q) => {
            return Progress::Ask(q);
        },
        Progress::Failed(f) => {
            return Progress::Failed(f);
        },
    }
    let old_dir = join_path(old_abs, ".baum");
    let new_dir = join_path(new_abs, ".baum");
    let context = cat("failed to move ", old_dir.as_str());
    match ask_done(
        replies,
        pos,
        Request::Rename(old_dir, new_dir),
        ErrorKind::Filesystem,
        context.as_str(),
    ) {
        Progress::Done(_) => {},
        Progress::Ask(q) => {
            return Progress::Ask(q);
        },
        Progress::Failed(f) => {
            return Progress::Failed(f);
        },
    }
    match move_worktrees_with_git(
        bare.as_str(),
        old_abs,
        new_abs,
        &baum.worktrees,
        out,
        replies,
        pos,
    ) {
        Progress::Done(_) => {},
        Progress::Ask(q) => {
            return Progress::Ask(q);
        },
        Progress::Failed(f) => {
            return Progress::Failed(f);
        },
    }
    match ask_stat(replies, pos, old_abs) {
        Progress::Done(kind) => {
            if kind == PathKind::Missing {
                Progress::Done(())
            } else {
                remove_if_empty(old_abs, replies, pos)
            }
        },
        Progress::Ask(q) => Progress::Ask(q),
        Progress::Failed(f) => Progress::Failed(f),
    }
}

/// Replays the move of a container on the local file system and in the
/// registry of its bare clone.
pub fn replay_move(
    ws: &Workspace,
    old_path: &str,
    new_path: &str,
    out: &Output,
    replies: &Vec<Reply>,
    pos: &mut usize,
) -> (r: Progress<()>)
    ensures
        agrees(
            r,
            *final(pos),
            replay_flow(ws@, *out, old_path@, new_path@, replies.deep_view(), *old(pos) as int),
        ),
{
    let old_abs = join_path(ws.root.as_str(), old_path);
    let new_abs = join_path(ws.root.as_str(), new_path);
    let (old_exists, old_is_baum) = match probe(old_abs.as_str(), replies, pos) {
        Progress::Done(p) => p,
        Progress::Ask(q) => {
            return Progress::Ask(q);
        },
        Progress::Failed(f) => {
            return Progress::Failed(f);
        },
    };
    let (new_exists, new_is_baum) = match probe(new_abs.as_str(), replies, pos) {
        Progress::Done(p) => p,
        Progress::Ask(q) => {
            return Progress::Ask(q);
        },
        Progress::Failed(f) => {
            return Progress::Failed(f);
        },
    };
    match decide_replay(old_exists, new_exists, old_is_baum, new_is_baum) {
        ReplayAction::Nothing => Progress::Done(()),
        ReplayAction::MoveBaum => move_whole_baum(
            ws,
            out,
            old_abs.as_str(),
            new_abs.as_str(),
            replies,
            pos,
        ),
        ReplayAction::MoveWorktrees => move_left_behind(
            ws,
            out,
            old_abs.as_str(),
            new_abs.as_str(),
            replies,
            pos,
        ),
        ReplayAction::ConflictBaums => {
            let message = cat5("Move conflict: both ", old_path, " and ", new_path, " are baums");
            say_warn(out, message.as_str(), replies, pos)
        },
        ReplayAction::ConflictExists => {
            let message = cat5("Move conflict: both ", old_path, " and ", new_path, " exist");
            say_warn(out, message.as_str(), replies, pos)
        },
        ReplayAction::NotABaum => {
            let message = cat("Not a baum, skipping: ", old_path);
            say_warn(out, message.as_str(), replies, pos)
        },
    }
}

/// Pushing the workspace: announced only on a dry run, and else done with
/// `git push`.
pub open spec fn push_flow(
    ws: WorkspaceView,
    opts: SyncOptions,
    out: Output,
    replies: Replies,
    pos: int,
) -> Outcome<()> {
    if opts.dry_run {
        info_say(out, "Would push changes to remote"@, replies, pos)
    } else {
        match status_say(out, "Pushing"@, "sending changes to remote"@, replies, pos) {
            Outcome::Done(_, p1) => match git_step(
                replies,
                p1,
                git_c(ws.root, seq!["push"@, "--quiet"@]),
                "failed to push changes"@,
            ) {
                Outcome::Done(run, p2) => if run.success {
                    Outcome::Done((), p2)
                } else {
                    Outcome::Failed(failure(ErrorKind::Git, "git push failed: "@ + run.stderr))
                },
                Outcome::Ask(q) => Outcome::Ask(q),
                Outcome::Failed(f) => Outcome::Failed(f),
            },
            Outcome::Ask(q) => Outcome::Ask(q),
            Outcome::Failed(f) => Outcome::Failed(f),
        }
    }
}

fn push_changes(ws: &Workspace, opts: &SyncOptions, out: &Output, replies: &Vec<Reply>, pos: &mut usize) -> (r:
    Progress<()>)
    ensures
        agrees(r, *final(pos), push_flow(ws@, *opts, *out, replies.deep_view(), *old(pos) as int)),
{
    if opts.dry_run {
        return say_info(out, "Would push changes to remote", replies, pos);
    }
    match say_status(out, "Pushing", "sending changes to remote", replies, pos) {
        Progress::Done(_) => {},
        Progress::Ask(q) => {
            return Progress::Ask(q);
        },
        Progress::Failed(f) => {
            return Progress::Failed(f);
        },
    }
    let rest = vec!["push", "--quiet"];
    assert(rest.deep_view() == seq!["push"@, "--quiet"@]);
    match ask_git(replies, pos, git_args(ws.root.as_str(), rest), "failed to push changes") {
        Progress::Done(run) => if run.success {
            Progress::Done(())
        } else {
            Progress::Failed(
                Failure::new(ErrorKind::Git, cat("git push failed: ", run.stderr.as_str())),
            )
        },
        Progress::Ask(q) => Progress::Ask(q),
        Progress::Failed(f) => Progress::Failed(f),
    }
}

/// The end of a sync: the push where it is asked for, and the commit of the
/// sync recorded in the sync state and saved. A dry run records nothing.
pub open spec fn finish_flow(
    ws: WorkspaceView,
    opts: SyncOptions,
    out: Output,
    head: Seq<char>,
    replies: Replies,
    pos: int,
) -> Outcome<Option<Seq<char>>> {
    let pushed = if opts.push {
        push_flow(ws, opts, out, replies, pos)
    } else {
        Outcome::Done((), pos)
    };
    match pushed {
        Outcome::Done(_, p1) => if opts.dry_run {
            Outcome::Done(ws.state, p1)
        } else {
            match save_state_flow(WorkspaceView { state: Some(head), ..ws }, replies, p1) {
                Outcome::Done(_, p2) => Outcome::Done(Some(head), p2),
                Outcome::Ask(q) => Outcome::Ask(q),
                Outcome::Failed(f) => Outcome::Failed(f),
            }
        },
        Outcome::Ask(q) => Outcome::Ask(q),
        Outcome::Failed(f) => Outcome::Failed(f),
    }
}

fn finish_sync(
    ws: &Workspace,
    opts: &SyncOptions,
    out: &Output,
    head: &str,
    replies: &Vec<Reply>,
    pos: &mut usize,
) -> (r: Progress<SyncState>)
    ensures
        agrees(
            r,
            *final(pos),
            finish_flow(ws@, *opts, *out, head@, replies.deep_view(), *old(pos) as int),
        ),
{
    if opts.push {
        match push_changes(ws, opts, out, replies, pos) {
            Progress::Done(_) => {},
            Progress::Ask(q) => {
                return Progress::Ask(q);
            },
            Progress::Failed(f) => {
                return Progress::Failed(f);
            },
        }
    }
    if opts.dry_run {
        return Progress::Done(ws.state.clone());
    }
    let mut state = ws.state.clone();
    state.update_last_sync(head);
    let path = ws.state_path();
    let context = cat("failed to write state: ", path.as_str());
    match ask_done(
        replies,
        pos,
        Request::SaveState(path, state.clone()),
        ErrorKind::Filesystem,
        context.as_str(),
    ) {
        Progress::Done(_) => Progress::Done(state),
        Progress::Ask(q) => Progress::Ask(q),
        Progress::Failed(f) => Progress::Failed(f),
    }
}

/// Announcing one move and, unless the run is dry, replaying it.
pub open spec fn sync_move_flow(
    ws: WorkspaceView,
    opts: SyncOptions,
    out: Output,
    entry: MoveEntryView,
    replies: Replies,
    pos: int,
) -> Outcome<()> {
    match status_say(out, "Move"@, entry.old_path + " -> "@ + entry.new_path, replies, pos) {
        Outcome::Done(_, p1) => if opts.dry_run {
            Outcome::Done((), p1)
        } else {
            replay_flow(ws, out, entry.old_path, entry.new_path, replies, p1)
        },
        Outcome::Ask(q) => Outcome::Ask(q),
        Outcome::Failed(f) => Outcome::Failed(f),
    }
}

/// The moves from index `from` on, in the order in which the rename
/// detection reported them.
pub open spec fn sync_moves_flow(
    ws: WorkspaceView,
    opts: SyncOptions,
    out: Output,
    moves: Seq<MoveEntryView>,
    from: int,
    replies: Replies,
    pos: int,
) -> Outcome<()>
    decreases moves.len() - from,
{
    if from < 0 || from >= moves.len() {
        Outcome::Done((), pos)
    } else {
        match sync_move_flow(ws, opts, out, moves[from], replies, pos) {
            Outcome::Done(_, next) => sync_moves_flow(ws, opts, out, moves, from + 1, replies, next),
            Outcome::Ask(q) => Outcome::Ask(q),
            Outcome::Failed(f) => Outcome::Failed(f),
        }
    }
}

fn sync_moves(
    ws: &Workspace,
    opts: &SyncOptions,
    out: &Output,
    moves: &Vec<MoveEntry>,
    replies: &Vec<Reply>,
    pos: &mut usize,
) -> (r: Progress<()>)
    ensures
        agrees(
            r,
            *final(pos),
            sync_moves_flow(
                ws@,
                *opts,
                *out,
                moves.deep_view(),
                0,
                replies.deep_view(),
                *old(pos) as int,
            ),
        ),
{
    let mut i: usize = 0;
    let ghost begin = *pos as int;
    while i < moves.len()
        invariant
            i <= moves.len(),
            begin == *old(pos) as int,
            sync_moves_flow(ws@, *opts, *out, moves.deep_view(), 0, replies.deep_view(), begin)
                == sync_moves_flow(
                ws@,
                *opts,
                *out,
                moves.deep_view(),
                i as int,
                replies.deep_view(),
                *pos as int,
            ),
        decreases moves.len() - i,
    {
        assert(moves.deep_view()[i as int] == moves[i as int]@);
        let entry = &moves[i];
        let target = cat3(entry.old_path.as_str(), " -> ", entry.new_path.as_str());
        match say_status(out, "Move", target.as_str(), replies, pos) {
            Progress::Done(_) => {},
            Progress::Ask(q) => {
                return Progress::Ask(q);
            },
            Progress::Failed(f) => {
                return Progress::Failed(f);
            },
        }
        if !opts.dry_run {
            match replay_move(
                ws,
                entry.old_path.as_str(),
                entry.new_path.as_str(),
                out,
                replies,
                pos,
            ) {
                Progress::Done(_) => {},
                Progress::Ask(q) => {
                    return Progress::Ask(q);
                },
                Progress::Failed(f) => {
                    return Progress::Failed(f);
                },
            }
        }
        i += 1;
    }
    Progress::Done(())
}

/// The part of a sync that follows a pull which brought something: the
/// moves since the last sync are detected and replayed in their order, and
/// the sync is finished.
pub open spec fn sync_changes_flow(
    ws: WorkspaceView,
    opts: SyncOptions,
    out: Output,
    before: Seq<char>,
    after: Seq<char>,
    replies: Replies,
    pos: int,
) -> Outcome<Option<Seq<char>>> {
    let from = match ws.state {
        Some(commit) => commit,
        None => before,
    };
    match git_step(
        replies,
        pos,
        seq![
            "-C"@,
            ws.root,
            "diff"@,
            "-M"@,
            "--name-status"@,
            "--first-parent"@,
            "--diff-filter=R"@,
            from + ".."@ + after,
        ],
        "failed to run git diff for move detection"@,
    ) {
        Outcome::Done(run, p1) => {
            let moves = if run.success {
                parsed_moves(run.stdout)
            } else {
                Seq::<MoveEntryView>::empty()
            };
            let announced = if moves.len() > 0 {
                status_say(
                    out,
                    "Detected"@,
                    decimal_text(moves.len()) + " baum move(s)"@,
                    replies,
                    p1,
                )
            } else {
                Outcome::Done((), p1)
            };
            match announced {
                Outcome::Done(_, p2) => match sync_moves_flow(ws, opts, out, moves, 0, replies, p2) {
                    Outcome::Done(_, p3) => match finish_flow(ws, opts, out, after, replies, p3) {
                        Outcome::Done(state, p4) => match success_say(
                            out,
                            "Sync complete"@,
                            replies,
                            p4,
                        ) {
                            Outcome::Done(_, p5) => Outcome::Done(state, p5),
                            Outcome::Ask(q) => Outcome::Ask(q),
                            Outcome::Failed(f) => Outcome::Failed(f),
                        },
                        Outcome::Ask(q) => Outcome::Ask(q),
                        Outcome::Failed(f) => Outcome::Failed(f),
                    },
                    Outcome::Ask(q) => Outcome::Ask(q),
                    Outcome::Failed(f) => Outcome::Failed(f),
                },
                Outcome::Ask(q) => Outcome::Ask(q),
                Outcome::Failed(f) => Outcome::Failed(f),
            }
        },
        Outcome::Ask(q) => Outcome::Ask(q),
        Outcome::Failed(f) => Outcome::Failed(f),
    }
}

fn sync_changes(
    ws: &Workspace,
    opts: &SyncOptions,
    out: &Output,
    before: &str,
    after: &str,
    replies: &Vec<Reply>,
    pos: &mut usize,
) -> (r: Progress<SyncState>)
    ensures
        agrees(
            r,
            *final(pos),
            sync_changes_flow(
                ws@,
                *opts,
                *out,
                before@,
                after@,
                replies.deep_view(),
                *old(pos) as int,
            ),
        ),
{
    let from: &str = match &ws.state.last_sync {
        Some(commit) => commit.as_str(),
        None => before,
    };
    let moves = match ask_git(
        replies,
        pos,
        detect_moves_args(ws.root.as_str(), from, after),
        "failed to run git diff for move detection",
    ) {
        Progress::Done(run) => detect_moves(run),
        Progress::Ask(q) => {
            return Progress::Ask(q);
        },
        Progress::Failed(f) => {
            return Progress::Failed(f);
        },
    };
    if moves.len() > 0 {
        let n = format_decimal(moves.len() as u64);
        let target = cat(n.as_str(), " baum move(s)");
        match say_status(out, "Detected", target.as_str(), replies, pos) {
            Progress::Done(_) => {},
            Progress::Ask(q) => {
                return Progress::Ask(q);
            },
            Progress::Failed(f) => {
                return Progress::Failed(f);
            },
        }
    }
    match sync_moves(ws, opts, out, &moves, replies, pos) {
        Progress::Done(_) => {},
        Progress::Ask(q) => {
            return Progress::Ask(q);
        },
        Progress::Failed(f) => {
            return Progress::Failed(f);
        },
    }
    let state = match finish_sync(ws, opts, out, after, replies, pos) {
        Progress::Done(s) => s,
        Progress::Ask(q) => {
            return Progress::Ask(q);
        },
        Progress::Failed(f) => {
            return Progress::Failed(f);
        },
    };
    match say_success(out, "Sync complete", replies, pos) {
        Progress::Done(_) => Progress::Done(state),
        Progress::Ask(q) => Progress::Ask(q),
        Progress::Failed(f) => Progress::Failed(f),
    }
}

/// Pulling with a rebase, unless the run is dry. A pull that fails because
/// the workspace has diverged says so, unless the sync is forced; any other
/// failure shows what `git` wrote.
pub open spec fn pull_flow(ws: WorkspaceView, opts: SyncOptions, replies: Replies, pos: int)
    -> Outcome<()> {
    if opts.dry_run {
        Outcome::Done((), pos)
    } else {
        match git_step(
            replies,
            pos,
            git_c(ws.root, seq!["pull"@, "--rebase"@, "--quiet"@]),
            "failed to pull changes"@,
        ) {
            Outcome::Done(run, next) => if run.success {
                Outcome::Done((), next)
            } else if contains_sub(run.stderr, "diverged"@) && !opts.force {
                Outcome::Failed(
                    failure(
                        ErrorKind::Git,
                        "workspace has diverged from remote\nUse --force to force sync"@,
                    ),
                )
            } else {
                Outcome::Failed(failure(ErrorKind::Git, "git pull failed: "@ + run.stderr))
            },
            Outcome::Ask(q) => Outcome::Ask(q),
            Outcome::Failed(f) => Outcome::Failed(f),
        }
    }
}

fn pull(ws: &Workspace, opts: &SyncOptions, replies: &Vec<Reply>, pos: &mut usize) -> (r: Progress<()>)
    ensures
        agrees(r, *final(pos), pull_flow(ws@, *opts, replies.deep_view(), *old(pos) as int)),
{
    if opts.dry_run {
        return Progress::Done(());
    }
    let rest = vec!["pull", "--rebase", "--quiet"];
    assert(rest.deep_view() == seq!["pull"@, "--rebase"@, "--quiet"@]);
    match ask_git(replies, pos, git_args(ws.root.as_str(), rest), "failed to pull changes") {
        Progress::Done(run) => {
            if run.success {
                Progress::Done(())
            } else if str_contains(run.stderr.as_str(), "diverged") && !opts.force {
                Progress::Failed(
                    Failure::new(
                        ErrorKind::Git,
                        "workspace has diverged from remote\nUse --force to force sync".to_owned(),
                    ),
                )
            } else {
                Progress::Failed(
                    Failure::new(ErrorKind::Git, cat("git pull failed: ", run.stderr.as_str())),
                )
            }
        },
        Progress::Ask(q) => Progress::Ask(q),
        Progress::Failed(f) => Progress::Failed(f),
    }
}

/// Refusing to sync a workspace that has changes which were not committed.
pub open spec fn clean_flow(ws: WorkspaceView, replies: Replies, pos: int) -> Outcome<()> {
    match git_step(
        replies,
        pos,
        git_c(ws.root, seq!["status"@, "--porcelain"@]),
        "failed to check git status"@,
    ) {
        Outcome::Done(run, next) => if trim(run.stdout).len() > 0 {
            Outcome::Failed(
                failure(
                    ErrorKind::Precondition,
                    "uncommitted changes in workspace\nCommit or stash changes before syncing"@,
                ),
            )
        } else {
            Outcome::Done((), next)
        },
        Outcome::Ask(q) => Outcome::Ask(q),
        Outcome::Failed(f) => Outcome::Failed(f),
    }
}

fn require_clean(ws: &Workspace, replies: &Vec<Reply>, pos: &mut usize) -> (r: Progress<()>)
    ensures
        agrees(r, *final(pos), clean_flow(ws@, replies.deep_view(), *old(pos) as int)),
{
    let rest = vec!["status", "--porcelain"];
    assert(rest.deep_view() == seq!["status"@, "--porcelain"@]);
    match ask_git(replies, pos, git_args(ws.root.as_str(), rest), "failed to check git status") {
        Progress::Done(run) => {
            let t = trim_str(run.stdout.as_str());
            if t.as_str().unicode_len() > 0 {
                Progress::Failed(
                    Failure::new(
                        ErrorKind::Precondition,
                        "uncommitted changes in workspace\nCommit or stash changes before syncing".to_owned(),
                    ),
                )
            } else {
                Progress::Done(())
            }
        },
        Progress::Ask(q) => Progress::Ask(q),
        Progress::Failed(f) => Progress::Failed(f),
    }
}

/// Syncing the workspace with its remote.
///
/// A workspace with uncommitted changes is refused. The commit of `HEAD`
/// is taken before and after the pull. Where the pull brought nothing the
/// sync is finished at once. Else the moves since the last sync are
/// replayed first. The result is the sync state after the sync: the commit
/// after the pull, or the state as it was on a dry run.
pub open spec fn sync_flow(
    ws: WorkspaceView,
    opts: SyncOptions,
    out: Output,
    replies: Replies,
    pos: int,
) -> Outcome<Option<Seq<char>>> {
    match clean_flow(ws, replies, pos) {
        Outcome::Done(_, p1) => match head_commit_flow(ws.root, replies, p1) {
            Outcome::Done(before, p2) => match status_say(
                out,
                "Syncing"@,
                "pulling changes from remote"@,
                replies,
                p2,
            ) {
                Outcome::Done(_, p3) => match pull_flow(ws, opts, replies, p3) {
                    Outcome::Done(_, p4) => match head_commit_flow(ws.root, replies, p4) {
                        Outcome::Done(after, p5) => if before == after {
                            match info_say(out, "Already up to date"@, replies, p5) {
                                Outcome::Done(_, p6) => finish_flow(
                                    ws,
                                    opts,
                                    out,
                                    after,
                                    replies,
                                    p6,
                                ),
                                Outcome::Ask(q) => Outcome::Ask(q),
                                Outcome::Failed(f) => Outcome::Failed(f),
                            }
                        } else {
                            sync_changes_flow(ws, opts, out, before, after, replies, p5)
                        },
                        Outcome::Ask(q) => Outcome::Ask(q),
                        Outcome::Failed(f) => Outcome::Failed(f),
                    },
                    Outcome::Ask(q) => Outcome::Ask(q),
                    Outcome::Failed(f) => Outcome::Failed(f),
                },
                Outcome::Ask(q) => Outcome::Ask(q),
                Outcome::Failed(f) => Outcome::Failed(f),
            },
            Outcome::Ask(q) => Outcome::Ask(q),
            Outcome::Failed(f) => Outcome::Failed(f),
        },
        Outcome::Ask(q) => Outcome::Ask(q),
        Outcome::Failed(f) => Outcome::Failed(f),
    }
}

/// Syncs the workspace with its remote and replays the moves of
/// containers. The result is the sync state after the sync.
pub fn sync(
    ws: &Workspace,
    opts: &SyncOptions,
    out: &Output,
    replies: &Vec<Reply>,
    pos: &mut usize,
) -> (r: Progress<SyncState>)
    ensures
        agrees(r, *final(pos), sync_flow(ws@, *opts, *out, replies.deep_view(), *old(pos) as int)),
{
    match require_clean(ws, replies, pos) {
        Progress::Done(_) => {},
        Progress::Ask(q) => {
            return Progress::Ask(q);
        },
        Progress::Failed(f) => {
            return Progress::Failed(f);
        },
    }
    let before = match get_head_commit(ws.root.as_str(), replies, pos) {
        Progress::Done(c) => c,
        Progress::Ask(q) => {
            return Progress::Ask(q);
        },
        Progress::Failed(f) => {
            return Progress::Failed(f);
        },
    };
    match say_status(out, "Syncing", "pulling changes from remote", replies, pos) {
        Progress::Done(_) => {},
        Progress::Ask(q) => {
            return Progress::Ask(q);
        },
        Progress::Failed(f) => {
            return Progress::Failed(f);
        },
    }
    match pull(ws, opts, replies, pos) {
        Progress::Done(_) => {},
        Progress::Ask(q) => {
            return Progress::Ask(q);
        },
        Progress::Failed(f) => {
            return Progress::Failed(f);
        },
    }
    let after = match get_head_commit(ws.root.as_str(), replies, pos) {
        Progress::Done(c) => c,
        Progress::Ask(q) => {
            return Progress::Ask(q);
        },
        Progress::Failed(f) => {
            return Progress::Failed(f);
        },
    };
    if str_eq(before.as_str(), after.as_str()) {
        match say_info(out, "Already up to date", replies, pos) {
            Progress::Done(_) => {},
            Progress::Ask(q) => {
                return Progress::Ask(q);
            },
            Progress::Failed(f) => {
                return Progress::Failed(f);
            },
        }
        return finish_sync(ws, opts, out, after.as_str(), replies, pos);
    }
    sync_changes(ws, opts, out, before.as_str(), after.as_str(), replies, pos)
}

/// A dry run never asks for the sync state to be written, and hands the
/// state back as it was.
pub proof fn lemma_dry_run_keeps_state(
    ws: WorkspaceView,
    opts: SyncOptions,
    out: Output,
    head: Seq<char>,
    replies: Replies,
    pos: int,
)
    requires
        opts.dry_run,
    ensures
        match finish_flow(ws, opts, out, head, replies, pos) {
            Outcome::Done(state, _) => state == ws.state,
            Outcome::Ask(q) => q is Say,
            Outcome::Failed(_) => false,
        },
{
}

/// A sync that is no dry run and that finishes records the commit that it
/// ended at.
pub proof fn lemma_finish_records_head(
    ws: WorkspaceView,
    opts: SyncOptions,
    out: Output,
    head: Seq<char>,
    replies: Replies,
    pos: int,
)
    requires
        !opts.dry_run,
    ensures
        finish_flow(ws, opts, out, head, replies, pos) matches Outcome::Done(state, _) ==> state
            == Some(head),
{
}

/// The replay follows the descriptor of a baum. Where nothing stands at the
/// old place, nothing is done. Where the baum still stands at the old place
/// and nothing at the new one, the whole baum moves. Where the descriptor
/// has arrived at the new place and the old place is no baum any more, the
/// worktrees that were left behind follow it.
pub proof fn lemma_replay_follows_descriptor(
    ws: WorkspaceView,
    out: Output,
    old_path: Seq<char>,
    new_path: Seq<char>,
    replies: Replies,
    pos: int,
)
    ensures
        probe_flow(joined(ws.root, old_path), replies, pos) matches Outcome::Done(
            (old_exists, old_is_baum),
            p1,
        ) ==> (probe_flow(joined(ws.root, new_path), replies, p1) matches Outcome::Done(
            (new_exists, new_is_baum),
            p2,
        ) ==> {
            let replay = replay_flow(ws, out, old_path, new_path, replies, pos);
            let old_abs = joined(ws.root, old_path);
            let new_abs = joined(ws.root, new_path);
            &&& !old_exists ==> replay == Outcome::Done((), p2)
            &&& old_exists && old_is_baum && !new_exists ==> replay == move_whole_baum_flow(
                ws,
                out,
                old_abs,
                new_abs,
                replies,
                p2,
            )
            &&& old_exists && !old_is_baum && new_exists && new_is_baum ==> replay
                == move_left_behind_flow(ws, out, old_abs, new_abs, replies, p2)
        }),
{
}

} // verus!
