//! `move`: a baum goes to another place in the workspace.
//!
//! Every worktree is moved with `git worktree move`, so that the registry
//! of the bare clone keeps pointing at it. The descriptor and the ignore
//! file follow, and the change is staged so that the outer repository
//! records a rename.

use vstd::prelude::*;
use crate::commands::common::{bare_path_of, bare_path_or_failure};
use crate::commands::sync::{remove_if_empty, remove_if_empty_flow};
use crate::decimal::{decimal_text, format_decimal};
use crate::failure::{failure, ErrorKind, Failure};
use crate::flow::{
    agrees, ask_done, ask_stat, done_step, git_try_step, stat_step, try_git, Outcome, PathKind,
    Progress, Replies, Reply, Request, RequestView,
};
use crate::git::shell::{git_args, git_c, worktree_move, worktree_move_flow};
use crate::output::{json_unsupported, Output, OutputFormat};
use crate::paths::{join_path, joined, parent, parent_of};
use crate::report::{
    say_status, say_success, say_verbose, status_say, success_say, verbose_say,
};
use crate::text::{cat, cat3, cat4, cat5};
use crate::types::manifest::{BaumManifest, BaumView, WorktreeEntry, WorktreeEntryView};
use crate::workspace::baum::{
    is_baum, is_baum_flow, load_baum, load_baum_flow, save_baum, save_baum_flow,
};
use crate::workspace::discovery::{Workspace, WorkspaceView};
use crate::workspace::path_safety::{validate_flow, validate_workspace_path};

verus! {

/// What `move` is asked to do.
#[derive(Debug)]
pub struct MoveOptions {
    /// Where the baum is, as the user named it.
    pub old_path: String,
    /// Where it is to go, as the user named it.
    pub new_path: String,
}

/// The value of a `MoveOptions`.
pub struct MoveOptionsView {
    pub old_path: Seq<char>,
    pub new_path: Seq<char>,
}

impl View for MoveOptions {
    type V = MoveOptionsView;

    open spec fn view(&self) -> MoveOptionsView {
        MoveOptionsView { old_path: self.old_path@, new_path: self.new_path@ }
    }
}

/// Moving one worktree to the new container. A worktree whose directory is
/// gone stays where it is recorded. A move that fails ends the operation.
pub open spec fn move_worktree_flow(
    out: Output,
    bare: Seq<char>,
    old_container: Seq<char>,
    new_container: Seq<char>,
    entry: WorktreeEntryView,
    replies: Replies,
    pos: int,
) -> Outcome<()> {
    let from = joined(old_container, entry.path);
    let to = joined(new_container, entry.path);
    match stat_step(replies, pos, from) {
        Outcome::Done(kind, p1) => if kind == PathKind::Missing {
            Outcome::Done((), p1)
        } else {
            match verbose_say(out, "Moving worktree: "@ + entry.path + " -> "@ + to, replies, p1) {
                Outcome::Done(_, p2) => match worktree_move_flow(bare, from, to, replies, p2) {
                    Outcome::Done(_, p3) => Outcome::Done((), p3),
                    Outcome::Ask(q) => Outcome::Ask(q),
                    Outcome::Failed(f) => Outcome::Failed(
                        failure(
                            f.kind,
                            "failed to move worktree "@ + entry.branch + ": "@ + f.message,
                        ),
                    ),
                },
                Outcome::Ask(q) => Outcome::Ask(q),
                Outcome::Failed(f) => Outcome::Failed(f),
            }
        },
        Outcome::Ask(q) => Outcome::Ask(q),
        Outcome::Failed(f) => Outcome::Failed(f),
    }
}

/// Moving the worktrees from index `from` on.
pub open spec fn move_worktrees_flow(
    out: Output,
    bare: Seq<char>,
    old_container: Seq<char>,
    new_container: Seq<char>,
    worktrees: Seq<WorktreeEntryView>,
    from: int,
    replies: Replies,
    pos: int,
) -> Outcome<()>
    decreases worktrees.len() - from,
{
    if from < 0 || from >= worktrees.len() {
        Outcome::Done((), pos)
    } else {
        match move_worktree_flow(
            out,
            bare,
            old_container,
            new_container,
            worktrees[from],
            replies,
            pos,
        ) {
            Outcome::Done(_, next) => move_worktrees_flow(
                out,
                bare,
                old_container,
                new_container,
                worktrees,
                from + 1,
                replies,
                next,
            ),
            Outcome::Ask(q) => Outcome::Ask(q),
            Outcome::Failed(f) => Outcome::Failed(f),
        }
    }
}

fn move_worktree(
    out: &Output,
    bare: &str,
    old_container: &str,
    new_container: &str,
    entry: &WorktreeEntry,
    replies: &Vec<Reply>,
    pos: &mut usize,
) -> (r: Progress<()>)
    ensures
        agrees(
            r,
            *final(pos),
            move_worktree_flow(
                *out,
                bare@,
                old_container@,
                new_container@,
                entry@,
                replies.deep_view(),
                *old(pos) as int,
            ),
        ),
{
    let from = join_path(old_container, entry.path.as_str());
    let to = join_path(new_container, entry.path.as_str());
    match ask_stat(replies, pos, from.as_str()) {
        Progress::Done(kind) => {
            if kind == PathKind::Missing {
                return Progress::Done(());
            }
        },
        Progress::Ask(q) => {
            return Progress::Ask(q);
        },
        Progress::Failed(f) => {
            return Progress::Failed(f);
        },
    }
    let note = cat4("Moving worktree: ", entry.path.as_str(), " -> ", to.as_str());
    match say_verbose(out, note.as_str(), replies, pos) {
        Progress::Done(_) => {},
        Progress::Ask(q) => {
            return Progress::Ask(q);
        },
        Progress::Failed(f) => {
            return Progress::Failed(f);
        },
    }
    match worktree_move(bare, from.as_str(), to.as_str(), replies, pos) {
        Progress::Done(_) => Progress::Done(()),
        Progress::Ask(q) => Progress::Ask(q),
        Progress::Failed(f) => Progress::Failed(
            Failure::new(
                f.kind,
                cat4("failed to move worktree ", entry.branch.as_str(), ": ", f.message.as_str()),
            ),
        ),
    }
}

fn move_worktrees(
    out: &Output,
    bare: &str,
    old_container: &str,
    new_container: &str,
    worktrees: &Vec<WorktreeEntry>,
    replies: &Vec<Reply>,
    pos: &mut usize,
) -> (r: Progress<()>)
    ensures
        agrees(
            r,
            *final(pos),
            move_worktrees_flow(
                *out,
                bare@,
                old_container@,
                new_container@,
                worktrees.deep_view(),
                0,
                replies.deep_view(),
                *old(pos) as int,
            ),
        ),
{
    let mut i: usize = 0;
    let ghost begin = *pos as int;
    while i < worktrees.len()
        invariant
            i <= worktrees.len(),
            begin == *old(pos) as int,
            move_worktrees_flow(
                *out,
                bare@,
                old_container@,
                new_container@,
                worktrees.deep_view(),
                0,
                replies.deep_view(),
                begin,
            ) == move_worktrees_flow(
                *out,
                bare@,
                old_container@,
                new_container@,
                worktrees.deep_view(),
                i as int,
                replies.deep_view(),
                *pos as int,
            ),
        decreases worktrees.len() - i,
    {
        assert(worktrees.deep_view()[i as int] == worktrees[i as int]@);
        match move_worktree(out, bare, old_container, new_container, &worktrees[i], replies, pos) {
            Progress::Done(_) => {},
            Progress::Ask(q) => {
                return Progress::Ask(q);
            },
            Progress::Failed(f) => {
                return Progress::Failed(f);
            },
        }
        i += 1;
    }
    Progress::Done(())
}

/// Staging the move in the outer repository: the new descriptor and the new
/// ignore file are added, the old ones are taken out of the index. None of
/// this can fail the move.
pub open spec fn stage_move_flow(
    repo: Seq<char>,
    source: Seq<char>,
    target: Seq<char>,
    replies: Replies,
    pos: int,
) -> Outcome<()> {
    let new_ignore = joined(target, ".gitignore"@);
    match git_try_step(replies, pos, git_c(repo, seq!["add"@, joined(target, ".baum"@)])) {
        Outcome::Done(_, p1) => match stat_step(replies, p1, new_ignore) {
            Outcome::Done(kind, p2) => {
                let added = if kind != PathKind::Missing {
                    git_try_step(replies, p2, git_c(repo, seq!["add"@, new_ignore]))
                } else {
                    Outcome::Done((), p2)
                };
                match added {
                    Outcome::Done(_, p3) => match git_try_step(
                        replies,
                        p3,
                        git_c(
                            repo,
                            seq![
                                "rm"@,
                                "-r"@,
                                "--cached"@,
                                "--ignore-unmatch"@,
                                joined(source, ".baum"@),
                            ],
                        ),
                    ) {
                        Outcome::Done(_, p4) => git_try_step(
                            replies,
                            p4,
                            git_c(
                                repo,
                                seq![
                                    "rm"@,
                                    "--cached"@,
                                    "--ignore-unmatch"@,
                                    joined(source, ".gitignore"@),
                                ],
                            ),
                        ),
                        Outcome::Ask(q) => Outcome::Ask(q),
                        Outcome::Failed(f) => Outcome::Failed(f),
                    },
                    Outcome::Ask(q) => Outcome::Ask(q),
                    Outcome::Failed(f) => Outcome::Failed(f),
                }
            },
            Outcome::Ask(q) => Outcome::Ask(q),
            Outcome::Failed(f) => Outcome::Failed(f),
        },
        Outcome::Ask(q) => Outcome::Ask(q),
        Outcome::Failed(f) => Outcome::Failed(f),
    }
}

/// Stages the move of a baum so that the outer repository records a rename.
pub fn stage_baum_move(repo: &str, source: &str, target: &str, replies: &Vec<Reply>, pos: &mut usize) -> (r:
    Progress<()>)
    ensures
        agrees(
            r,
            *final(pos),
            stage_move_flow(repo@, source@, target@, replies.deep_view(), *old(pos) as int),
        ),
{
    let new_baum = join_path(target, ".baum");
    let rest = vec!["add", new_baum.as_str()];
    assert(rest.deep_view() == seq!["add"@, joined(target@, ".baum"@)]);
    match try_git(replies, pos, git_args(repo, rest)) {
        Progress::Done(_) => {},
        Progress::Ask(q) => {
            return Progress::Ask(q);
        },
        Progress::Failed(f) => {
            return Progress::Failed(f);
        },
    }
    let new_ignore = join_path(target, ".gitignore");
    match ask_stat(replies, pos, new_ignore.as_str()) {
        Progress::Done(kind) => {
            if kind != PathKind::Missing {
                let rest = vec!["add", new_ignore.as_str()];
                assert(rest.deep_view() == seq!["add"@, new_ignore@]);
                match try_git(replies, pos, git_args(repo, rest)) {
                    Progress::Done(_) => {},
                    Progress::Ask(q) => {
                        return Progress::Ask(q);
                    },
                    Progress::Failed(f) => {
                        return Progress::Failed(f);
                    },
                }
            }
        },
        Progress::Ask(q) => {
            return Progress::Ask(q);
        },
        Progress::Failed(f) => {
            return Progress::Failed(f);
        },
    }
    let old_baum = join_path(source, ".baum");
    let rest = vec!["rm", "-r", "--cached", "--ignore-unmatch", old_baum.as_str()];
    assert(rest.deep_view() == seq![
        "rm"@,
        "-r"@,
        "--cached"@,
        "--ignore-unmatch"@,
        joined(source@, ".baum"@),
    ]);
    match try_git(replies, pos, git_args(repo, rest)) {
        Progress::Done(_) => {},
        Progress::Ask(q) => {
            return Progress::Ask(q);
        },
        Progress::Failed(f) => {
            return Progress::Failed(f);
        },
    }
    let old_ignore = join_path(source, ".gitignore");
    let rest = vec!["rm", "--cached", "--ignore-unmatch", old_ignore.as_str()];
    assert(rest.deep_view() == seq![
        "rm"@,
        "--cached"@,
        "--ignore-unmatch"@,
        joined(source@, ".gitignore"@),
    ]);
    try_git(replies, pos, git_args(repo, rest))
}

/// What follows the worktrees to the new place: the descriptor is written
/// there, the ignore file is copied, and the old descriptor, the old ignore
/// file and the old container, if it is empty, go.
pub open spec fn settle_flow(
    source: Seq<char>,
    target: Seq<char>,
    baum: BaumView,
    replies: Replies,
    pos: int,
) -> Outcome<()> {
    let old_ignore = joined(source, ".gitignore"@);
    let old_baum = joined(source, ".baum"@);
    match done_step(
        replies,
        pos,
        RequestView::MakeDirs(joined(target, ".baum"@)),
        ErrorKind::Filesystem,
        "failed to create "@ + joined(target, ".baum"@),
    ) {
        Outcome::Done(_, p1) => match save_baum_flow(target, baum, replies, p1) {
            Outcome::Done(_, p2) => match stat_step(replies, p2, old_ignore) {
                Outcome::Done(ignore, p3) => {
                    let copied = if ignore != PathKind::Missing {
                        done_step(
                            replies,
                            p3,
                            RequestView::CopyFile(old_ignore, joined(target, ".gitignore"@)),
                            ErrorKind::Filesystem,
                            "failed to copy "@ + old_ignore,
                        )
                    } else {
                        Outcome::Done((), p3)
                    };
                    match copied {
                        Outcome::Done(_, p4) => match stat_step(replies, p4, old_baum) {
                            Outcome::Done(descriptor, p5) => {
                                let cleared = if descriptor != PathKind::Missing {
                                    done_step(
                                        replies,
                                        p5,
                                        RequestView::RemoveTree(old_baum),
                                        ErrorKind::Filesystem,
                                        "failed to remove "@ + old_baum,
                                    )
                                } else {
                                    Outcome::Done((), p5)
                                };
                                match cleared {
                                    Outcome::Done(_, p6) => {
                                        let dropped = if ignore != PathKind::Missing {
                                            done_step(
                                                replies,
                                                p6,
                                                RequestView::RemoveFile(old_ignore),
                                                ErrorKind::Filesystem,
                                                "failed to remove "@ + old_ignore,
                                            )
                                        } else {
                                            Outcome::Done((), p6)
                                        };
                                        match dropped {
                                            Outcome::Done(_, p7) => match stat_step(
                                                replies,
                                                p7,
                                                source,
                                            ) {
                                                Outcome::Done(left, p8) => if left
                                                    != PathKind::Missing {
                                                    remove_if_empty_flow(source, replies, p8)
                                                } else {
                                                    Outcome::Done((), p8)
                                                },
                                                Outcome::Ask(q) => Outcome::Ask(q),
                                                Outcome::Failed(f) => Outcome::Failed(f),
                                            },
                                            Outcome::Ask(q) => Outcome::Ask(q),
                                            Outcome::Failed(f) => Outcome::Failed(f),
                                        }
                                    },
                                    Outcome::Ask(q) => Outcome::Ask(q),
                                    Outcome::Failed(f) => Outcome::Failed(f),
                                }
                            },
                            Outcome::Ask(q) => Outcome::Ask(q),
                            Outcome::Failed(f) => Outcome::Failed(f),
                        },
                        Outcome::Ask(q) => Outcome::Ask(q),
                        Outcome::Failed(f) => Outcome::Failed(f),
                    }
                },
                Outcome::Ask(q) => Outcome::Ask(q),
                Outcome::Failed(f) => Outcome::Failed(f),
            },
            Outcome::Ask(q) => Outcome::Ask(q),
            Outcome::Failed(f) => Outcome::Failed(f),
        },
        Outcome::Ask(q) => Outcome::Ask(q),
        Outcome::Failed(f) => Outcome::Failed(f),
    }
}

fn settle(source: &str, target: &str, baum: &BaumManifest, replies: &Vec<Reply>, pos: &mut usize) -> (r:
    Progress<()>)
    ensures
        agrees(
            r,
            *final(pos),
            settle_flow(source@, target@, baum@, replies.deep_view(), *old(pos) as int),
        ),
{
    let old_ignore = join_path(source, ".gitignore");
    let old_baum = join_path(source, ".baum");
    let new_baum = join_path(target, ".baum");
    let context = cat("failed to create ", new_baum.as_str());
    match ask_done(replies, pos, Request::MakeDirs(new_baum), ErrorKind::Filesystem, context.as_str()) {
        Progress::Done(_) => {},
        Progress::Ask(q) => {
            return Progress::Ask(q);
        },
        Progress::Failed(f) => {
            return Progress::Failed(f);
        },
    }
    match save_baum(target, baum, replies, pos) {
        Progress::Done(_) => {},
        Progress::Ask(q) => {
            return Progress::Ask(q);
        },
        Progress::Failed(f) => {
            return Progress::Failed(f);
        },
    }
    let ignore = match ask_stat(replies, pos, old_ignore.as_str()) {
        Progress::Done(k) => k,
        Progress::Ask(q) => {
            return Progress::Ask(q);
        },
        Progress::Failed(f) => {
            return Progress::Failed(f);
        },
    };
    if ignore != PathKind::Missing {
        let context = cat("failed to copy ", old_ignore.as_str());
        match ask_done(
            replies,
            pos,
            Request::CopyFile(old_ignore.clone(), join_path(target, ".gitignore")),
            ErrorKind::Filesystem,
            context.as_str(),
        ) {
            Progress::Done(_) => {},
            Progress::Ask(q) => {
                return Progress::Ask(q);
            },
            Progress::Failed(f) => {
                return Progress::Failed(f);
            },
        }
    }
    match ask_stat(replies, pos, old_baum.as_str()) {
        Progress::Done(kind) => {
            if kind != PathKind::Missing {
                let context = cat("failed to remove ", old_baum.as_str());
                match ask_done(
                    replies,
                    pos,
                    Request::RemoveTree(old_baum.clone()),
                    ErrorKind::Filesystem,
                    context.as_str(),
                ) {
                    Progress::Done(_) => {},
                    Progress::Ask(q) => {
                        return Progress::Ask(q);
                    },
                    Progress::Failed(f) => {
                        return Progress::Failed(f);
                    },
                }
            }
        },
        Progress::Ask(q) => {
            return Progress::Ask(q);
        },
        Progress::Failed(f) => {
            return Progress::Failed(f);
        },
    }
    if ignore != PathKind::Missing {
        let context = cat("failed to remove ", old_ignore.as_str());
        match ask_done(
            replies,
            pos,
            Request::RemoveFile(old_ignore.clone()),
            ErrorKind::Filesystem,
            context.as_str(),
        ) {
            Progress::Done(_) => {},
            Progress::Ask(q) => {
                return Progress::Ask(q);
            },
            Progress::Failed(f) => {
                return Progress::Failed(f);
            },
        }
    }
    match ask_stat(replies, pos, source) {
        Progress::Done(kind) => {
            if kind != PathKind::Missing {
                remove_if_empty(source, replies, pos)
            } else {
                Progress::Done(())
            }
        },
        Progress::Ask(q) => Progress::Ask(q),
        Progress::Failed(f) => Progress::Failed(f),
    }
}

/// The part of `move` that changes things.
pub open spec fn move_work_flow(
    ws: WorkspaceView,
    opts: MoveOptionsView,
    out: Output,
    source: Seq<char>,
    target: Seq<char>,
    replies: Replies,
    pos: int,
) -> Outcome<()> {
    let made = match parent(target) {
        Some(dir) => done_step(
            replies,
            pos,
            RequestView::MakeDirs(dir),
            ErrorKind::Filesystem,
            "failed to create "@ + dir,
        ),
        None => Outcome::Done((), pos),
    };
    match made {
        Outcome::Done(_, p1) => match load_baum_flow(source, replies, p1) {
            Outcome::Done(baum, p2) => match status_say(
                out,
                "Moving"@,
                opts.old_path + " -> "@ + opts.new_path,
                replies,
                p2,
            ) {
                Outcome::Done(_, p3) => match bare_path_or_failure(ws, baum.repo_id) {
                    Err(f) => Outcome::Failed(f),
                    Ok(bare) => match done_step(
                        replies,
                        p3,
                        RequestView::MakeDirs(target),
                        ErrorKind::Filesystem,
                        "failed to create "@ + target,
                    ) {
                        Outcome::Done(_, p4) => match move_worktrees_flow(
                            out,
                            bare,
                            source,
                            target,
                            baum.worktrees,
                            0,
                            replies,
                            p4,
                        ) {
                            Outcome::Done(_, p5) => match settle_flow(source, target, baum, replies, p5) {
                                Outcome::Done(_, p6) => match stage_move_flow(
                                    ws.root,
                                    source,
                                    target,
                                    replies,
                                    p6,
                                ) {
                                    Outcome::Done(_, p7) => success_say(
                                        out,
                                        "Moved "@ + baum.repo_id + " ("@ + decimal_text(
                                            baum.worktrees.len(),
                                        ) + " worktree(s))"@,
                                        replies,
                                        p7,
                                    ),
                                    Outcome::Ask(q) => Outcome::Ask(q),
                                    Outcome::Failed(f) => Outcome::Failed(f),
                                },
                                Outcome::Ask(q) => Outcome::Ask(q),
                                Outcome::Failed(f) => Outcome::Failed(f),
                            },
                            Outcome::Ask(q) => Outcome::Ask(q),
                            Outcome::Failed(f) => Outcome::Failed(f),
                        },
                        Outcome::Ask(q) => Outcome::Ask(q),
                        Outcome::Failed(f) => Outcome::Failed(f),
                    },
                },
                Outcome::Ask(q) => Outcome::Ask(q),
                Outcome::Failed(f) => Outcome::Failed(f),
            },
            Outcome::Ask(q) => Outcome::Ask(q),
            Outcome::Failed(f) => Outcome::Failed(f),
        },
        Outcome::Ask(q) => Outcome::Ask(q),
        Outcome::Failed(f) => Outcome::Failed(f),
    }
}

/// Moving a baum. Both paths must lie inside the workspace, the source
/// must be a baum, and the destination must not exist. Nothing is changed
/// before these checks have passed.
pub open spec fn move_flow(
    ws: WorkspaceView,
    opts: MoveOptionsView,
    out: Output,
    replies: Replies,
    pos: int,
) -> Outcome<()> {
    if out.format == OutputFormat::Json {
        Outcome::Failed(json_unsupported("move"@))
    } else {
        match validate_flow(ws.root, opts.old_path, replies, pos) {
            Outcome::Done(source, p1) => match validate_flow(ws.root, opts.new_path, replies, p1) {
                Outcome::Done(target, p2) => match stat_step(replies, p2, source) {
                    Outcome::Done(there, p3) => if there == PathKind::Missing {
                        Outcome::Failed(
                            failure(ErrorKind::Precondition, "source path not found: "@ + source),
                        )
                    } else {
                        match is_baum_flow(source, replies, p3) {
                            Outcome::Done(planted, p4) => if !planted {
                                Outcome::Failed(
                                    failure(
                                        ErrorKind::Precondition,
                                        "source is not a baum: "@ + source
                                            + " (.baum directory not found)"@,
                                    ),
                                )
                            } else {
                                match stat_step(replies, p4, target) {
                                    Outcome::Done(taken, p5) => if taken != PathKind::Missing {
                                        Outcome::Failed(
                                            failure(
                                                ErrorKind::Precondition,
                                                "destination already exists: "@ + target,
                                            ),
                                        )
                                    } else {
                                        move_work_flow(ws, opts, out, source, target, replies, p5)
                                    },
                                    Outcome::Ask(q) => Outcome::Ask(q),
                                    Outcome::Failed(f) => Outcome::Failed(f),
                                }
                            },
                            Outcome::Ask(q) => Outcome::Ask(q),
                            Outcome::Failed(f) => Outcome::Failed(f),
                        }
                    },
                    Outcome::Ask(q) => Outcome::Ask(q),
                    Outcome::Failed(f) => Outcome::Failed(f),
                },
                Outcome::Ask(q) => Outcome::Ask(q),
                Outcome::Failed(f) => Outcome::Failed(f),
            },
            Outcome::Ask(q) => Outcome::Ask(q),
            Outcome::Failed(f) => Outcome::Failed(f),
        }
    }
}

fn move_work(
    ws: &Workspace,
    opts: &MoveOptions,
    out: &Output,
    source: &str,
    target: &str,
    replies: &Vec<Reply>,
    pos: &mut usize,
) -> (r: Progress<()>)
    ensures
        agrees(
            r,
            *final(pos),
            move_work_flow(ws@, opts@, *out, source@, target@, replies.deep_view(), *old(pos) as int),
        ),
{
    if let Some(dir) = parent_of(target) {
        let context = cat("failed to create ", dir.as_str());
        match ask_done(replies, pos, Request::MakeDirs(dir), ErrorKind::Filesystem, context.as_str()) {
            Progress::Done(_) => {},
            Progress::Ask(q) => {
                return Progress::Ask(q);
            },
            Progress::Failed(f) => {
                return Progress::Failed(f);
            },
        }
    }
    let baum = match load_baum(source, replies, pos) {
        Progress::Done(b) => b,
        Progress::Ask(q) => {
            return Progress::Ask(q);
        },
        Progress::Failed(f) => {
            return Progress::Failed(f);
        },
    };
    let shown = cat3(opts.old_path.as_str(), " -> ", opts.new_path.as_str());
    match say_status(out, "Moving", shown.as_str(), replies, pos) {
        Progress::Done(_) => {},
        Progress::Ask(q) => {
            return Progress::Ask(q);
        },
        Progress::Failed(f) => {
            return Progress::Failed(f);
        },
    }
    let bare = match bare_path_of(ws, baum.repo_id.as_str()) {
        Ok(p) => p,
        Err(f) => {
            return Progress::Failed(f);
        },
    };
    let context = cat("failed to create ", target);
    match ask_done(
        replies,
        pos,
        Request::MakeDirs(target.to_owned()),
        ErrorKind::Filesystem,
        context.as_str(),
    ) {
        Progress::Done(_) => {},
        Progress::Ask(q) => {
            return Progress::Ask(q);
        },
        Progress::Failed(f) => {
            return Progress::Failed(f);
        },
    }
    match move_worktrees(out, bare.as_str(), source, target, &baum.worktrees, replies, pos) {
        Progress::Done(_) => {},
        Progress::Ask(q) => {
            return Progress::Ask(q);
        },
        Progress::Failed(f) => {
            return Progress::Failed(f);
        },
    }
    match settle(source, target, &baum, replies, pos) {
        Progress::Done(_) => {},
        Progress::Ask(q) => {
            return Progress::Ask(q);
        },
        Progress::Failed(f) => {
            return Progress::Failed(f);
        },
    }
    match stage_baum_move(ws.root.as_str(), source, target, replies, pos) {
        Progress::Done(_) => {},
        Progress::Ask(q) => {
            return Progress::Ask(q);
        },
        Progress::Failed(f) => {
            return Progress::Failed(f);
        },
    }
    let n = format_decimal(baum.worktrees.len() as u64);
    let message = cat5("Moved ", baum.repo_id.as_str(), " (", n.as_str(), " worktree(s))");
    say_success(out, message.as_str(), replies, pos)
}

/// Moves a baum to a new place in the workspace.
pub fn move_baum(
    ws: &Workspace,
    opts: &MoveOptions,
    out: &Output,
    replies: &Vec<Reply>,
    pos: &mut usize,
) -> (r: Progress<()>)
    ensures
        agrees(r, *final(pos), move_flow(ws@, opts@, *out, replies.deep_view(), *old(pos) as int)),
{
    if let Err(f) = out.require_human("move") {
        return Progress::Failed(f);
    }
    let source = match validate_workspace_path(
        ws.root.as_str(),
        opts.old_path.as_str(),
        replies,
        pos,
    ) {
        Progress::Done(p) => p,
        Progress::Ask(q) => {
            return Progress::Ask(q);
        },
        Progress::Failed(f) => {
            return Progress::Failed(f);
        },
    };
    let target = match validate_workspace_path(
        ws.root.as_str(),
        opts.new_path.as_str(),
        replies,
        pos,
    ) {
        Progress::Done(p) => p,
        Progress::Ask(q) => {
            return Progress::Ask(q);
        },
        Progress::Failed(f) => {
            return Progress::Failed(f);
        },
    };
    match ask_stat(replies, pos, source.as_str()) {
        Progress::Done(kind) => {
            if kind == PathKind::Missing {
                return Progress::Failed(
                    Failure::new(
                        ErrorKind::Precondition,
                        cat("source path not found: ", source.as_str()),
                    ),
                );
            }
        },
        Progress::Ask(q) => {
            return Progress::Ask(q);
        },
        Progress::Failed(f) => {
            return Progress::Failed(f);
        },
    }
    match is_baum(source.as_str(), replies, pos) {
        Progress::Done(planted) => {
            if !planted {
                return Progress::Failed(
                    Failure::new(
                        ErrorKind::Precondition,
                        cat3("source is not a baum: ", source.as_str(), " (.baum directory not found)"),
                    ),
                );
            }
        },
        Progress::Ask(q) => {
            return Progress::Ask(q);
        },
        Progress::Failed(f) => {
            return Progress::Failed(f);
        },
    }
    match ask_stat(replies, pos, target.as_str()) {
        Progress::Done(kind) => {
            if kind != PathKind::Missing {
                return Progress::Failed(
                    Failure::new(
                        ErrorKind::Precondition,
                        cat("destination already exists: ", target.as_str()),
                    ),
                );
            }
        },
        Progress::Ask(q) => {
            return Progress::Ask(q);
        },
        Progress::Failed(f) => {
            return Progress::Failed(f);
        },
    }
    move_work(ws, opts, out, source.as_str(), target.as_str(), replies, pos)
}

} // verus!
