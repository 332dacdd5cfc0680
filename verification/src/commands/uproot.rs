//! `uproot`: a baum is taken out of the workspace, worktrees and all.

use vstd::prelude::*;
use crate::commands::common::{
    bare_path_of, bare_path_or_failure, container_flow, find_container,
};
use crate::decimal::{decimal_text, format_decimal};
use crate::failure::{failure, ErrorKind, Failure};
use crate::flow::{
    agrees, ask_done, ask_stat, done_step, driver_failure, driver_fault, exchange, reply_at,
    stat_step, Outcome, PathKind, Progress, Replies, Reply, ReplyView, Request, RequestView,
};
use crate::git::shell::{git_args, git_c, stderr_message, with_stderr};
use crate::output::{json_unsupported, Output, OutputFormat};
use crate::paths::{join_path, joined};
use crate::report::{say_status, say_success, say_warn, status_say, success_say, warn_say};
use crate::text::{cat, cat4, cat5};
use crate::types::manifest::{WorktreeEntry, WorktreeEntryView};
use crate::workspace::baum::{load_baum, load_baum_flow};
use crate::workspace::discovery::{Workspace, WorkspaceView};

verus! {

/// What `uproot` is asked to do.
#[derive(Debug)]
pub struct UprootOptions {
    /// The container of the baum, as the user named it.
    pub path: String,
    /// Go on where a worktree cannot be removed.
    pub force: bool,
}

/// The value of a `UprootOptions`.
pub struct UprootOptionsView {
    pub path: Seq<char>,
    pub force: bool,
}

impl View for UprootOptions {
    type V = UprootOptionsView;

    open spec fn view(&self) -> UprootOptionsView {
        UprootOptionsView { path: self.path@, force: self.force }
    }
}

/// Removing a worktree with `git worktree remove`: what went wrong, if
/// anything did.
pub open spec fn try_remove_flow(
    bare: Seq<char>,
    worktree_path: Seq<char>,
    force: bool,
    replies: Replies,
    pos: int,
) -> Outcome<Option<Seq<char>>> {
    let rest = if force {
        seq!["worktree"@, "remove"@, "--force"@, worktree_path]
    } else {
        seq!["worktree"@, "remove"@, worktree_path]
    };
    let message = "failed to remove worktree at "@ + worktree_path;
    match reply_at(replies, pos) {
        None => Outcome::Ask(RequestView::Git(git_c(bare, rest))),
        Some(ReplyView::Git(run)) => if run.success {
            Outcome::Done(None, pos + 1)
        } else {
            Outcome::Done(Some(with_stderr(message, run.stderr)), pos + 1)
        },
        Some(ReplyView::Failed(cause)) => Outcome::Done(Some(message + ": "@ + cause), pos + 1),
        Some(_) => Outcome::Failed(driver_fault()),
    }
}

fn try_remove_worktree(
    bare: &str,
    worktree_path: &str,
    force: bool,
    replies: &Vec<Reply>,
    pos: &mut usize,
) -> (r: Progress<Option<String>>)
    ensures
        agrees(
            r,
            *final(pos),
            try_remove_flow(bare@, worktree_path@, force, replies.deep_view(), *old(pos) as int),
        ),
{
    let rest = if force {
        let rest = vec!["worktree", "remove", "--force", worktree_path];
        assert(rest.deep_view() == seq!["worktree"@, "remove"@, "--force"@, worktree_path@]);
        rest
    } else {
        let rest = vec!["worktree", "remove", worktree_path];
        assert(rest.deep_view() == seq!["worktree"@, "remove"@, worktree_path@]);
        rest
    };
    let message = cat("failed to remove worktree at ", worktree_path);
    match exchange(replies, pos, Request::Git(git_args(bare, rest))) {
        Err(q) => Progress::Ask(q),
        Ok(Reply::Git(run)) => if run.success {
            Progress::Done(None)
        } else {
            Progress::Done(Some(stderr_message(message.as_str(), run)))
        },
        Ok(Reply::Failed(cause)) => Progress::Done(
            Some(crate::text::cat3(message.as_str(), ": ", cause.as_str())),
        ),
        Ok(_) => Progress::Failed(driver_failure()),
    }
}

/// Uprooting one worktree. A worktree whose directory is gone is passed
/// over. A removal that fails ends the operation, unless it is forced: then
/// it is warned about.
pub open spec fn uproot_worktree_flow(
    out: Output,
    bare: Seq<char>,
    container: Seq<char>,
    force: bool,
    entry: WorktreeEntryView,
    replies: Replies,
    pos: int,
) -> Outcome<()> {
    let path = joined(container, entry.path);
    match stat_step(replies, pos, path) {
        Outcome::Done(kind, p1) => if kind == PathKind::Missing {
            Outcome::Done((), p1)
        } else {
            match status_say(out, "Removing worktree"@, entry.branch, replies, p1) {
                Outcome::Done(_, p2) => match try_remove_flow(bare, path, force, replies, p2) {
                    Outcome::Done(None, p3) => Outcome::Done((), p3),
                    Outcome::Done(Some(cause), p3) => if force {
                        warn_say(
                            out,
                            "Failed to remove worktree "@ + entry.branch + ": "@ + cause,
                            replies,
                            p3,
                        )
                    } else {
                        Outcome::Failed(failure(ErrorKind::Git, cause))
                    },
                    Outcome::Ask(q) => Outcome::Ask(q),
                    Outcome::Failed(f) => Outcome::Failed(f),
                },
                Outcome::Ask(q) => Outcome::Ask(q),
                Outcome::Failed(f) => Outcome::Failed(f),
            }
        },
        Outcome::Ask(q) => Outcome::Ask(q),
        Outcome::Failed(f) => Outcome::Failed(f),
    }
}

/// Uprooting the worktrees from index `from` on.
pub open spec fn uproot_worktrees_flow(
    out: Output,
    bare: Seq<char>,
    container: Seq<char>,
    force: bool,
    worktrees: Seq<WorktreeEntryView>,
    from: int,
    replies: Replies,
    pos: int,
) -> Outcome<()>
    decreases worktrees.len() - from,
{
    if from < 0 || from >= worktrees.len() {
        Outcome::Done((), pos)
    } else {
        match uproot_worktree_flow(out, bare, container, force, worktrees[from], replies, pos) {
            Outcome::Done(_, next) => uproot_worktrees_flow(
                out,
                bare,
                container,
                force,
                worktrees,
                from + 1,
                replies,
                next,
            ),
            Outcome::Ask(q) => Outcome::Ask(q),
            Outcome::Failed(f) => Outcome::Failed(f),
        }
    }
}

fn uproot_worktree(
    out: &Output,
    bare: &str,
    container: &str,
    force: bool,
    entry: &WorktreeEntry,
    replies: &Vec<Reply>,
    pos: &mut usize,
) -> (r: Progress<()>)
    ensures
        agrees(
            r,
            *final(pos),
            uproot_worktree_flow(
                *out,
                bare@,
                container@,
                force,
                entry@,
                replies.deep_view(),
                *old(pos) as int,
            ),
        ),
{
    let path = join_path(container, entry.path.as_str());
    match ask_stat(replies, pos, path.as_str()) {
        Progress::Done(kind) => {
            if kind == PathKind::Missing {
                return Progress::Done(());
            }
        },
        Progress::Ask(q) => {
            return Progress::Ask(q);
        },
        Progress::Failed(f) => {
            return Progress::Failed(f);
        },
    }
    match say_status(out, "Removing worktree", entry.branch.as_str(), replies, pos) {
        Progress::Done(_) => {},
        Progress::Ask(q) => {
            return Progress::Ask(q);
        },
        Progress::Failed(f) => {
            return Progress::Failed(f);
        },
    }
    match try_remove_worktree(bare, path.as_str(), force, replies, pos) {
        Progress::Done(None) => Progress::Done(()),
        Progress::Done(Some(cause)) => {
            if force {
                let message = cat4(
                    "Failed to remove worktree ",
                    entry.branch.as_str(),
                    ": ",
                    cause.as_str(),
                );
                say_warn(out, message.as_str(), replies, pos)
            } else {
                Progress::Failed(Failure::new(ErrorKind::Git, cause))
            }
        },
        Progress::Ask(q) => Progress::Ask(q),
        Progress::Failed(f) => Progress::Failed(f),
    }
}

fn uproot_worktrees(
    out: &Output,
    bare: &str,
    container: &str,
    force: bool,
    worktrees: &Vec<WorktreeEntry>,
    replies: &Vec<Reply>,
    pos: &mut usize,
) -> (r: Progress<()>)
    ensures
        agrees(
            r,
            *final(pos),
            uproot_worktrees_flow(
                *out,
                bare@,
                container@,
                force,
                worktrees.deep_view(),
                0,
                replies.deep_view(),
                *old(pos) as int,
            ),
        ),
{
    let mut i: usize = 0;
    let ghost begin = *pos as int;
    while i < worktrees.len()
        invariant
            i <= worktrees.len(),
            begin == *old(pos) as int,
            uproot_worktrees_flow(
                *out,
                bare@,
                container@,
                force,
                worktrees.deep_view(),
                0,
                replies.deep_view(),
                begin,
            ) == uproot_worktrees_flow(
                *out,
                bare@,
                container@,
                force,
                worktrees.deep_view(),
                i as int,
                replies.deep_view(),
                *pos as int,
            ),
        decreases worktrees.len() - i,
    {
        assert(worktrees.deep_view()[i as int] == worktrees[i as int]@);
        match uproot_worktree(out, bare, container, force, &worktrees[i], replies, pos) {
            Progress::Done(_) => {},
            Progress::Ask(q) => {
                return Progress::Ask(q);
            },
            Progress::Failed(f) => {
                return Progress::Failed(f);
            },
        }
        i += 1;
    }
    Progress::Done(())
}

/// Uprooting a baum: its worktrees are removed through `git`, and then the
/// container goes with all that is in it.
pub open spec fn uproot_flow(
    ws: WorkspaceView,
    opts: UprootOptionsView,
    out: Output,
    replies: Replies,
    pos: int,
) -> Outcome<()> {
    if out.format == OutputFormat::Json {
        Outcome::Failed(json_unsupported("uproot"@))
    } else {
        match container_flow(ws.root, opts.path, replies, pos) {
            Outcome::Done(container, p1) => match load_baum_flow(container, replies, p1) {
                Outcome::Done(baum, p2) => match bare_path_or_failure(ws, baum.repo_id) {
                    Err(f) => Outcome::Failed(f),
                    Ok(bare) => match status_say(out, "Uprooting"@, container, replies, p2) {
                        Outcome::Done(_, p3) => match uproot_worktrees_flow(
                            out,
                            bare,
                            container,
                            opts.force,
                            baum.worktrees,
                            0,
                            replies,
                            p3,
                        ) {
                            Outcome::Done(_, p4) => match done_step(
                                replies,
                                p4,
                                RequestView::RemoveTree(container),
                                ErrorKind::Filesystem,
                                "failed to remove "@ + container,
                            ) {
                                Outcome::Done(_, p5) => success_say(
                                    out,
                                    "Uprooted "@ + baum.repo_id + " ("@ + decimal_text(
                                        baum.worktrees.len(),
                                    ) + " worktree(s) removed)"@,
                                    replies,
                                    p5,
                                ),
                                Outcome::Ask(q) => Outcome::Ask(q),
                                Outcome::Failed(f) => Outcome::Failed(f),
                            },
                            Outcome::Ask(q) => Outcome::Ask(q),
                            Outcome::Failed(f) => Outcome::Failed(f),
                        },
                        Outcome::Ask(q) => Outcome::Ask(q),
                        Outcome::Failed(f) => Outcome::Failed(f),
                    },
                },
                Outcome::Ask(q) => Outcome::Ask(q),
                Outcome::Failed(f) => Outcome::Failed(f),
            },
            Outcome::Ask(q) => Outcome::Ask(q),
            Outcome::Failed(f) => Outcome::Failed(f),
        }
    }
}

/// Uproots a baum: removes its worktrees and its container.
pub fn uproot(
    ws: &Workspace,
    opts: &UprootOptions,
    out: &Output,
    replies: &Vec<Reply>,
    pos: &mut usize,
) -> (r: Progress<()>)
    ensures
        agrees(r, *final(pos), uproot_flow(ws@, opts@, *out, replies.deep_view(), *old(pos) as int)),
{
    if let Err(f) = out.require_human("uproot") {
        return Progress::Failed(f);
    }
    let container = match find_container(ws.root.as_str(), opts.path.as_str(), replies, pos) {
        Progress::Done(c) => c,
        Progress::Ask(q) => {
            return Progress::Ask(q);
        },
        Progress::Failed(f) => {
            return Progress::Failed(f);
        },
    };
    let baum = match load_baum(container.as_str(), replies, pos) {
        Progress::Done(b) => b,
        Progress::Ask(q) => {
            return Progress::Ask(q);
        },
        Progress::Failed(f) => {
            return Progress::Failed(f);
        },
    };
    let bare = match bare_path_of(ws, baum.repo_id.as_str()) {
        Ok(p) => p,
        Err(f) => {
            return Progress::Failed(f);
        },
    };
    match say_status(out, "Uprooting", container.as_str(), replies, pos) {
        Progress::Done(_) => {},
        Progress::Ask(q) => {
            return Progress::Ask(q);
        },
        Progress::Failed(f) => {
            return Progress::Failed(f);
        },
    }
    match uproot_worktrees(
        out,
        bare.as_str(),
        container.as_str(),
        opts.force,
        &baum.worktrees,
        replies,
        pos,
    ) {
        Progress::Done(_) => {},
        Progress::Ask(q) => {
            return Progress::Ask(q);
        },
        Progress::Failed(f) => {
            return Progress::Failed(f);
        },
    }
    let context = cat("failed to remove ", container.as_str());
    match ask_done(
        replies,
        pos,
        Request::RemoveTree(container.clone()),
        ErrorKind::Filesystem,
        context.as_str(),
    ) {
        Progress::Done(_) => {},
        Progress::Ask(q) => {
            return Progress::Ask(q);
        },
        Progress::Failed(f) => {
            return Progress::Failed(f);
        },
    }
    let n = format_decimal(baum.worktrees.len() as u64);
    let message = cat5("Uprooted ", baum.repo_id.as_str(), " (", n.as_str(), " worktree(s) removed)");
    say_success(out, message.as_str(), replies, pos)
}

} // verus!
