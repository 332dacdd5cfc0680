//! `prune`: worktrees taken out of a baum, and tracking branches that no
//! baum uses any more deleted across the workspace.

use vstd::prelude::*;
use crate::commands::common::{
    bare_path_of, bare_path_or_failure, container_flow, find_container,
};
use crate::decimal::{decimal_text, format_decimal};
use crate::failure::{failure, ErrorKind};
use crate::flow::{
    agrees, ask_done, ask_stat, done_step, exchange, reply_at, stat_step, FoundBaum,
    FoundBaumView, Outcome, PathKind, Progress, Replies, Reply, ReplyView, Request, RequestView,
};
use crate::git::shell::{git_args, git_c, stderr_message, with_stderr};
use crate::git::worktree::{
    branch_names, counts_some, parse_branch_list, remove_worktree, remove_worktree_flow,
};
use crate::id::{parse_wald_branch, parsed_tracking};
use crate::output::{json_unsupported, Output, OutputFormat};
use crate::paths::{join_path, joined};
use crate::report::{
    info_say, say_info, say_status, say_success, say_warn, status_say, success_say, warn_say,
};
use crate::split::{lines, trim, trim_str};
use crate::text::{cat, cat3, cat4, str_eq};
use crate::types::manifest::{branch_index, BaumManifest, BaumView};
use crate::workspace::baum::{load_baum, load_baum_flow, save_baum, save_baum_flow};
use crate::workspace::discovery::{find_all_baums, find_baums_step, Workspace, WorkspaceView};

verus! {

/// What `prune` is asked to do.
#[derive(Debug)]
pub struct PruneOptions {
    /// The container of the baum, as the user named it.
    pub baum_path: String,
    /// The branches whose worktrees are to go.
    pub branches: Vec<String>,
    /// Remove worktrees even where they hold changes.
    pub force: bool,
}

/// The value of a `PruneOptions`.
pub struct PruneOptionsView {
    pub baum_path: Seq<char>,
    pub branches: Seq<Seq<char>>,
    pub force: bool,
}

impl View for PruneOptions {
    type V = PruneOptionsView;

    open spec fn view(&self) -> PruneOptionsView {
        PruneOptionsView {
            baum_path: self.baum_path@,
            branches: self.branches.deep_view(),
            force: self.force,
        }
    }
}

/// One more, as long as the count has room for it.
pub open spec fn one_more(n: u64) -> u64 {
    if n < u64::MAX {
        (n + 1) as u64
    } else {
        n
    }
}

fn count_up(n: u64) -> (m: u64)
    ensures
        m == one_more(n),
{
    if n < u64::MAX {
        n + 1
    } else {
        n
    }
}

/// Taking the worktree at `index` away: `git worktree remove` where the
/// directory is there, and the directory itself where it is still there
/// after that.
pub open spec fn drop_worktree_flow(
    out: Output,
    bare: Seq<char>,
    worktree_path: Seq<char>,
    branch: Seq<char>,
    force: bool,
    replies: Replies,
    pos: int,
) -> Outcome<()> {
    match status_say(out, "Removing worktree"@, branch, replies, pos) {
        Outcome::Done(_, p1) => match stat_step(replies, p1, worktree_path) {
            Outcome::Done(first, p2) => {
                let removed = if first != PathKind::Missing {
                    remove_worktree_flow(bare, worktree_path, force, replies, p2)
                } else {
                    Outcome::Done((), p2)
                };
                match removed {
                    Outcome::Done(_, p3) => match stat_step(replies, p3, worktree_path) {
                        Outcome::Done(second, p4) => if second != PathKind::Missing {
                            done_step(
                                replies,
                                p4,
                                RequestView::RemoveTree(worktree_path),
                                ErrorKind::Filesystem,
                                "failed to remove "@ + worktree_path,
                            )
                        } else {
                            Outcome::Done((), p4)
                        },
                        Outcome::Ask(q) => Outcome::Ask(q),
                        Outcome::Failed(f) => Outcome::Failed(f),
                    },
                    Outcome::Ask(q) => Outcome::Ask(q),
                    Outcome::Failed(f) => Outcome::Failed(f),
                }
            },
            Outcome::Ask(q) => Outcome::Ask(q),
            Outcome::Failed(f) => Outcome::Failed(f),
        },
        Outcome::Ask(q) => Outcome::Ask(q),
        Outcome::Failed(f) => Outcome::Failed(f),
    }
}

fn drop_worktree(
    out: &Output,
    bare: &str,
    worktree_path: &str,
    branch: &str,
    force: bool,
    replies: &Vec<Reply>,
    pos: &mut usize,
) -> (r: Progress<()>)
    ensures
        agrees(
            r,
            *final(pos),
            drop_worktree_flow(
                *out,
                bare@,
                worktree_path@,
                branch@,
                force,
                replies.deep_view(),
                *old(pos) as int,
            ),
        ),
{
    match say_status(out, "Removing worktree", branch, replies, pos) {
        Progress::Done(_) => {},
        Progress::Ask(q) => {
            return Progress::Ask(q);
        },
        Progress::Failed(f) => {
            return Progress::Failed(f);
        },
    }
    match ask_stat(replies, pos, worktree_path) {
        Progress::Done(kind) => {
            if kind != PathKind::Missing {
                match remove_worktree(bare, worktree_path, force, replies, pos) {
                    Progress::Done(_) => {},
                    Progress::Ask(q) => {
                        return Progress::Ask(q);
                    },
                    Progress::Failed(f) => {
                        return Progress::Failed(f);
                    },
                }
            }
        },
        Progress::Ask(q) => {
            return Progress::Ask(q);
        },
        Progress::Failed(f) => {
            return Progress::Failed(f);
        },
    }
    match ask_stat(replies, pos, worktree_path) {
        Progress::Done(kind) => {
            if kind != PathKind::Missing {
                let context = cat("failed to remove ", worktree_path);
                return ask_done(
                    replies,
                    pos,
                    Request::RemoveTree(worktree_path.to_owned()),
                    ErrorKind::Filesystem,
                    context.as_str(),
                );
            }
            Progress::Done(())
        },
        Progress::Ask(q) => Progress::Ask(q),
        Progress::Failed(f) => Progress::Failed(f),
    }
}

/// One round of `prune`: the worktree of one branch is taken away and its
/// entry leaves the descriptor. A branch without a worktree is warned
/// about, and changes nothing.
pub open spec fn prune_round_flow(
    out: Output,
    container: Seq<char>,
    bare: Seq<char>,
    force: bool,
    baum: BaumView,
    removed: u64,
    branch: Seq<char>,
    replies: Replies,
    pos: int,
) -> Outcome<(BaumView, u64)> {
    match branch_index(baum.worktrees, branch, 0) {
        Some(index) => match drop_worktree_flow(
            out,
            bare,
            joined(container, baum.worktrees[index].path),
            branch,
            force,
            replies,
            pos,
        ) {
            Outcome::Done(_, next) => Outcome::Done(
                (
                    BaumView { worktrees: baum.worktrees.remove(index), ..baum },
                    one_more(removed),
                ),
                next,
            ),
            Outcome::Ask(q) => Outcome::Ask(q),
            Outcome::Failed(f) => Outcome::Failed(f),
        },
        None => match warn_say(out, "No worktree found for branch: "@ + branch, replies, pos) {
            Outcome::Done(_, next) => Outcome::Done((baum, removed), next),
            Outcome::Ask(q) => Outcome::Ask(q),
            Outcome::Failed(f) => Outcome::Failed(f),
        },
    }
}

/// The rounds of `prune` for the branches from index `from` on.
pub open spec fn prune_rounds_flow(
    out: Output,
    container: Seq<char>,
    bare: Seq<char>,
    force: bool,
    baum: BaumView,
    removed: u64,
    branches: Seq<Seq<char>>,
    from: int,
    replies: Replies,
    pos: int,
) -> Outcome<(BaumView, u64)>
    decreases branches.len() - from,
{
    if from < 0 || from >= branches.len() {
        Outcome::Done((baum, removed), pos)
    } else {
        match prune_round_flow(
            out,
            container,
            bare,
            force,
            baum,
            removed,
            branches[from],
            replies,
            pos,
        ) {
            Outcome::Done((next_baum, count), next) => prune_rounds_flow(
                out,
                container,
                bare,
                force,
                next_baum,
                count,
                branches,
                from + 1,
                replies,
                next,
            ),
            Outcome::Ask(q) => Outcome::Ask(q),
            Outcome::Failed(f) => Outcome::Failed(f),
        }
    }
}

/// Removing the worktrees of branches from a baum.
pub open spec fn prune_flow(
    ws: WorkspaceView,
    opts: PruneOptionsView,
    out: Output,
    replies: Replies,
    pos: int,
) -> Outcome<()> {
    if out.format == OutputFormat::Json {
        Outcome::Failed(json_unsupported("prune"@))
    } else {
        match container_flow(ws.root, opts.baum_path, replies, pos) {
            Outcome::Done(container, p1) => match load_baum_flow(container, replies, p1) {
                Outcome::Done(baum, p2) => match bare_path_or_failure(ws, baum.repo_id) {
                    Err(f) => Outcome::Failed(f),
                    Ok(bare) => match prune_rounds_flow(
                        out,
                        container,
                        bare,
                        opts.force,
                        baum,
                        0,
                        opts.branches,
                        0,
                        replies,
                        p2,
                    ) {
                        Outcome::Done((left, removed), p3) => match save_baum_flow(
                            container,
                            left,
                            replies,
                            p3,
                        ) {
                            Outcome::Done(_, p4) => if removed > 0 {
                                success_say(
                                    out,
                                    "Removed "@ + decimal_text(removed as nat) + " worktree(s)"@,
                                    replies,
                                    p4,
                                )
                            } else {
                                info_say(out, "No worktrees removed"@, replies, p4)
                            },
                            Outcome::Ask(q) => Outcome::Ask(q),
                            Outcome::Failed(f) => Outcome::Failed(f),
                        },
                        Outcome::Ask(q) => Outcome::Ask(q),
                        Outcome::Failed(f) => Outcome::Failed(f),
                    },
                },
                Outcome::Ask(q) => Outcome::Ask(q),
                Outcome::Failed(f) => Outcome::Failed(f),
            },
            Outcome::Ask(q) => Outcome::Ask(q),
            Outcome::Failed(f) => Outcome::Failed(f),
        }
    }
}

fn prune_round(
    out: &Output,
    container: &str,
    bare: &str,
    force: bool,
    baum: BaumManifest,
    removed: u64,
    branch: &str,
    replies: &Vec<Reply>,
    pos: &mut usize,
) -> (r: Progress<(BaumManifest, u64)>)
    ensures
        agrees(
            r,
            *final(pos),
            prune_round_flow(
                *out,
                container@,
                bare@,
                force,
                baum@,
                removed,
                branch@,
                replies.deep_view(),
                *old(pos) as int,
            ),
        ),
{
    let mut current = baum;
    match current.position_of(branch) {
        Some(index) => {
            assert(current@.worktrees[index as int] == current.worktrees[index as int]@);
            let worktree_path = join_path(container, current.worktrees[index].path.as_str());
            match drop_worktree(out, bare, worktree_path.as_str(), branch, force, replies, pos) {
                Progress::Done(_) => {},
                Progress::Ask(q) => {
                    return Progress::Ask(q);
                },
                Progress::Failed(f) => {
                    return Progress::Failed(f);
                },
            }
            current.remove_worktree(index);
            Progress::Done((current, count_up(removed)))
        },
        None => {
            let message = cat("No worktree found for branch: ", branch);
            match say_warn(out, message.as_str(), replies, pos) {
                Progress::Done(_) => Progress::Done((current, removed)),
                Progress::Ask(q) => Progress::Ask(q),
                Progress::Failed(f) => Progress::Failed(f),
            }
        },
    }
}

fn prune_rounds(
    out: &Output,
    container: &str,
    bare: &str,
    force: bool,
    baum: BaumManifest,
    branches: &Vec<String>,
    replies: &Vec<Reply>,
    pos: &mut usize,
) -> (r: Progress<(BaumManifest, u64)>)
    ensures
        agrees(
            r,
            *final(pos),
            prune_rounds_flow(
                *out,
                container@,
                bare@,
                force,
                baum@,
                0,
                branches.deep_view(),
                0,
                replies.deep_view(),
                *old(pos) as int,
            ),
        ),
{
    let ghost first = baum@;
    let ghost begin = *pos as int;
    let mut current = baum;
    let mut removed: u64 = 0;
    let mut i: usize = 0;
    while i < branches.len()
        invariant
            i <= branches.len(),
            begin == *old(pos) as int,
            first == baum@,
            prune_rounds_flow(
                *out,
                container@,
                bare@,
                force,
                first,
                0,
                branches.deep_view(),
                0,
                replies.deep_view(),
                begin,
            ) == prune_rounds_flow(
                *out,
                container@,
                bare@,
                force,
                current@,
                removed,
                branches.deep_view(),
                i as int,
                replies.deep_view(),
                *pos as int,
            ),
        decreases branches.len() - i,
    {
        assert(branches.deep_view()[i as int] == branches[i as int]@);
        match prune_round(
            out,
            container,
            bare,
            force,
            current,
            removed,
            branches[i].as_str(),
            replies,
            pos,
        ) {
            Progress::Done((b, n)) => {
                current = b;
                removed = n;
            },
            Progress::Ask(q) => {
                return Progress::Ask(q);
            },
            Progress::Failed(f) => {
                return Progress::Failed(f);
            },
        }
        i += 1;
    }
    Progress::Done((current, removed))
}

/// Removes the worktrees of branches from a baum.
pub fn prune(
    ws: &Workspace,
    opts: &PruneOptions,
    out: &Output,
    replies: &Vec<Reply>,
    pos: &mut usize,
) -> (r: Progress<()>)
    ensures
        agrees(r, *final(pos), prune_flow(ws@, opts@, *out, replies.deep_view(), *old(pos) as int)),
{
    if let Err(f) = out.require_human("prune") {
        return Progress::Failed(f);
    }
    let container = match find_container(
        ws.root.as_str(),
        opts.baum_path.as_str(),
        replies,
        pos,
    ) {
        Progress::Done(c) => c,
        Progress::Ask(q) => {
            return Progress::Ask(q);
        },
        Progress::Failed(f) => {
            return Progress::Failed(f);
        },
    };
    let baum = match load_baum(container.as_str(), replies, pos) {
        Progress::Done(b) => b,
        Progress::Ask(q) => {
            return Progress::Ask(q);
        },
        Progress::Failed(f) => {
            return Progress::Failed(f);
        },
    };
    let bare = match bare_path_of(ws, baum.repo_id.as_str()) {
        Ok(p) => p,
        Err(f) => {
            return Progress::Failed(f);
        },
    };
    let (current, removed) = match prune_rounds(
        out,
        container.as_str(),
        bare.as_str(),
        opts.force,
        baum,
        &opts.branches,
        replies,
        pos,
    ) {
        Progress::Done(pair) => pair,
        Progress::Ask(q) => {
            return Progress::Ask(q);
        },
        Progress::Failed(f) => {
            return Progress::Failed(f);
        },
    };
    match save_baum(container.as_str(), &current, replies, pos) {
        Progress::Done(_) => {},
        Progress::Ask(q) => {
            return Progress::Ask(q);
        },
        Progress::Failed(f) => {
            return Progress::Failed(f);
        },
    }
    if removed > 0 {
        let count = format_decimal(removed);
        let message = cat3("Removed ", count.as_str(), " worktree(s)");
        say_success(out, message.as_str(), replies, pos)
    } else {
        say_info(out, "No worktrees removed", replies, pos)
    }
}

/// Whether some baum with the given ID has a worktree on the branch.
pub open spec fn in_use(found: Seq<FoundBaumView>, id: Seq<char>, branch: Seq<char>) -> bool {
    exists|i: int|
        0 <= i < found.len() && (#[trigger] found[i]).baum.id == Some(id) && found[i].baum.has_branch(
            branch,
        )
}

/// Whether some baum has the given ID.
pub open spec fn has_baum(found: Seq<FoundBaumView>, id: Seq<char>) -> bool {
    exists|i: int| 0 <= i < found.len() && (#[trigger] found[i]).baum.id == Some(id)
}

/// The baum and the branch of a tracking branch that no baum uses: the name
/// is a tracking-branch name, and no baum with its ID has a worktree on its
/// branch. Names that are no tracking-branch names are nobody's orphans.
pub open spec fn orphan(found: Seq<FoundBaumView>, name: Seq<char>) -> Option<
    (Seq<char>, Seq<char>),
> {
    match parsed_tracking(name) {
        Some((id, branch)) => if in_use(found, id, branch) {
            None
        } else {
            Some((id, branch))
        },
        None => None,
    }
}

fn same_id(id: &Option<String>, wanted: &str) -> (r: bool)
    ensures
        r == (id.deep_view() == Some(wanted@)),
{
    match id {
        Some(x) => str_eq(x.as_str(), wanted),
        None => false,
    }
}

fn is_in_use(found: &Vec<FoundBaum>, id: &str, branch: &str) -> (r: bool)
    ensures
        r == in_use(found.deep_view(), id@, branch@),
{
    let mut i: usize = 0;
    while i < found.len()
        invariant
            i <= found.len(),
            forall|k: int|
                0 <= k < i ==> !((#[trigger] found.deep_view()[k]).baum.id == Some(id@)
                    && found.deep_view()[k].baum.has_branch(branch@)),
        decreases found.len() - i,
    {
        assert(found.deep_view()[i as int] == found[i as int]@);
        if same_id(&found[i].baum.id, id) && found[i].baum.has_branch(branch) {
            return true;
        }
        i += 1;
    }
    false
}

fn knows_baum(found: &Vec<FoundBaum>, id: &str) -> (r: bool)
    ensures
        r == has_baum(found.deep_view(), id@),
{
    let mut i: usize = 0;
    while i < found.len()
        invariant
            i <= found.len(),
            forall|k: int| 0 <= k < i ==> (#[trigger] found.deep_view()[k]).baum.id != Some(id@),
        decreases found.len() - i,
    {
        assert(found.deep_view()[i as int] == found[i as int]@);
        if same_id(&found[i].baum.id, id) {
            return true;
        }
        i += 1;
    }
    false
}

/// Finds out whether a tracking branch is one that no baum uses.
pub fn find_orphan(found: &Vec<FoundBaum>, name: &str) -> (r: Option<(String, String)>)
    ensures
        r.deep_view() == orphan(found.deep_view(), name@),
{
    match parse_wald_branch(name) {
        Some((id, branch)) => {
            if is_in_use(found, id.as_str(), branch.as_str()) {
                None
            } else {
                Some((id, branch))
            }
        },
        None => None,
    }
}

/// Listing the tracking branches of a bare clone, as far as that goes: a
/// list that cannot be had is no list, and no failure.
pub open spec fn try_list_flow(bare: Seq<char>, replies: Replies, pos: int) -> Outcome<
    Option<Seq<Seq<char>>>,
> {
    match reply_at(replies, pos) {
        None => Outcome::Ask(
            RequestView::Git(git_c(bare, seq!["branch"@, "--list"@, "wald/*"@])),
        ),
        Some(ReplyView::Git(run)) => if run.success {
            Outcome::Done(Some(branch_names(lines(run.stdout))), pos + 1)
        } else {
            Outcome::Done(None, pos + 1)
        },
        Some(_) => Outcome::Done(None, pos + 1),
    }
}

fn try_list_wald_branches(bare: &str, replies: &Vec<Reply>, pos: &mut usize) -> (r: Progress<
    Option<Vec<String>>,
>)
    ensures
        agrees(r, *final(pos), try_list_flow(bare@, replies.deep_view(), *old(pos) as int)),
{
    let rest = vec!["branch", "--list", "wald/*"];
    assert(rest.deep_view() == seq!["branch"@, "--list"@, "wald/*"@]);
    match exchange(replies, pos, Request::Git(git_args(bare, rest))) {
        Err(q) => Progress::Ask(q),
        Ok(Reply::Git(run)) => if run.success {
            Progress::Done(Some(parse_branch_list(run.stdout.as_str())))
        } else {
            Progress::Done(None)
        },
        Ok(_) => Progress::Done(None),
    }
}

/// Whether a branch has commits that were not pushed, as far as that can
/// be told: where `git` cannot be run at all the answer is no.
pub open spec fn try_unpushed_flow(bare: Seq<char>, branch: Seq<char>, replies: Replies, pos: int)
    -> Outcome<bool> {
    match reply_at(replies, pos) {
        None => Outcome::Ask(
            RequestView::Git(
                git_c(bare, seq!["rev-parse"@, "--abbrev-ref"@, branch + "@{upstream}"@]),
            ),
        ),
        Some(ReplyView::Git(probe)) => if !probe.success {
            Outcome::Done(false, pos + 1)
        } else {
            match reply_at(replies, pos + 1) {
                None => Outcome::Ask(
                    RequestView::Git(
                        git_c(
                            bare,
                            seq!["rev-list"@, "--count"@, trim(probe.stdout) + ".."@ + branch],
                        ),
                    ),
                ),
                Some(ReplyView::Git(count)) => Outcome::Done(
                    !count.success || counts_some(count.stdout),
                    pos + 2,
                ),
                Some(_) => Outcome::Done(false, pos + 2),
            }
        },
        Some(_) => Outcome::Done(false, pos + 1),
    }
}

fn try_unpushed(bare: &str, branch: &str, replies: &Vec<Reply>, pos: &mut usize) -> (r: Progress<bool>)
    ensures
        agrees(
            r,
            *final(pos),
            try_unpushed_flow(bare@, branch@, replies.deep_view(), *old(pos) as int),
        ),
{
    let spec_name = cat(branch, "@{upstream}");
    let rest = vec!["rev-parse", "--abbrev-ref", spec_name.as_str()];
    assert(rest.deep_view() == seq!["rev-parse"@, "--abbrev-ref"@, branch@ + "@{upstream}"@]);
    let upstream = match exchange(replies, pos, Request::Git(git_args(bare, rest))) {
        Err(q) => {
            return Progress::Ask(q);
        },
        Ok(Reply::Git(probe)) => {
            if !probe.success {
                return Progress::Done(false);
            }
            trim_str(probe.stdout.as_str())
        },
        Ok(_) => {
            return Progress::Done(false);
        },
    };
    let range = cat3(upstream.as_str(), "..", branch);
    let rest = vec!["rev-list", "--count", range.as_str()];
    assert(rest.deep_view() == seq!["rev-list"@, "--count"@, upstream@ + ".."@ + branch@]);
    match exchange(replies, pos, Request::Git(git_args(bare, rest))) {
        Err(q) => Progress::Ask(q),
        Ok(Reply::Git(count)) => {
            if !count.success {
                return Progress::Done(true);
            }
            let text = crate::text::to_chars(count.stdout.as_str());
            let t = crate::split::trim_chars(&text);
            match crate::decimal::parse_decimal(&t, 0xffff_ffff) {
                Some(n) => Progress::Done(n > 0),
                None => Progress::Done(false),
            }
        },
        Ok(_) => Progress::Done(false),
    }
}

/// Deleting a branch, as far as that goes: what went wrong, if anything
/// did.
pub open spec fn try_delete_flow(
    bare: Seq<char>,
    branch: Seq<char>,
    force: bool,
    replies: Replies,
    pos: int,
) -> Outcome<Option<Seq<char>>> {
    let flag = if force {
        "-D"@
    } else {
        "-d"@
    };
    let message = "failed to delete branch "@ + branch;
    match reply_at(replies, pos) {
        None => Outcome::Ask(RequestView::Git(git_c(bare, seq!["branch"@, flag, branch]))),
        Some(ReplyView::Git(run)) => if run.success {
            Outcome::Done(None, pos + 1)
        } else {
            Outcome::Done(Some(with_stderr(message, run.stderr)), pos + 1)
        },
        Some(_) => Outcome::Done(Some(message), pos + 1),
    }
}

fn try_delete_branch(bare: &str, branch: &str, force: bool, replies: &Vec<Reply>, pos: &mut usize) -> (r:
    Progress<Option<String>>)
    ensures
        agrees(
            r,
            *final(pos),
            try_delete_flow(bare@, branch@, force, replies.deep_view(), *old(pos) as int),
        ),
{
    let flag = if force {
        "-D"
    } else {
        "-d"
    };
    let rest = vec!["branch", flag, branch];
    assert(rest.deep_view() == seq!["branch"@, flag@, branch@]);
    let message = cat("failed to delete branch ", branch);
    match exchange(replies, pos, Request::Git(git_args(bare, rest))) {
        Err(q) => Progress::Ask(q),
        Ok(Reply::Git(run)) => if run.success {
            Progress::Done(None)
        } else {
            Progress::Done(Some(stderr_message(message.as_str(), run)))
        },
        Ok(_) => Progress::Done(Some(message)),
    }
}

/// How many tracking branches a cleanup deleted, and how many it left.
#[derive(Debug, Clone, Copy, PartialEq, Eq, Structural)]
pub struct Cleanup {
    pub removed: u64,
    pub skipped: u64,
}

impl View for Cleanup {
    type V = Cleanup;

    open spec fn view(&self) -> Cleanup {
        *self
    }
}

impl DeepView for Cleanup {
    type V = Cleanup;

    open spec fn deep_view(&self) -> Cleanup {
        *self
    }
}

/// What the cleanup does about one branch of a bare clone.
///
/// A branch that is no orphan is left alone. An orphan with commits that
/// were not pushed is skipped with a warning, unless the cleanup is forced.
/// Every other orphan is deleted; where that fails it is skipped with a
/// warning.
pub open spec fn cleanup_branch_flow(
    out: Output,
    found: Seq<FoundBaumView>,
    repo_id: Seq<char>,
    bare: Seq<char>,
    force: bool,
    name: Seq<char>,
    count: Cleanup,
    replies: Replies,
    pos: int,
) -> Outcome<Cleanup> {
    match orphan(found, name) {
        None => Outcome::Done(count, pos),
        Some((id, _)) => match try_unpushed_flow(bare, name, replies, pos) {
            Outcome::Done(unpushed, p1) => if unpushed && !force {
                match warn_say(
                    out,
                    repo_id + ": "@ + name
                        + " has unpushed commits, skipping (use --force to delete)"@,
                    replies,
                    p1,
                ) {
                    Outcome::Done(_, p2) => Outcome::Done(
                        Cleanup { skipped: one_more(count.skipped), ..count },
                        p2,
                    ),
                    Outcome::Ask(q) => Outcome::Ask(q),
                    Outcome::Failed(f) => Outcome::Failed(f),
                }
            } else {
                let reason = if has_baum(found, id) {
                    "worktree removed"@
                } else {
                    "baum not found"@
                };
                match status_say(
                    out,
                    "Deleting"@,
                    repo_id + ": "@ + name + " ("@ + reason + ")"@,
                    replies,
                    p1,
                ) {
                    Outcome::Done(_, p2) => match try_delete_flow(bare, name, force, replies, p2) {
                        Outcome::Done(None, p3) => Outcome::Done(
                            Cleanup { removed: one_more(count.removed), ..count },
                            p3,
                        ),
                        Outcome::Done(Some(cause), p3) => match warn_say(
                            out,
                            "Failed to delete "@ + name + ": "@ + cause,
                            replies,
                            p3,
                        ) {
                            Outcome::Done(_, p4) => Outcome::Done(
                                Cleanup { skipped: one_more(count.skipped), ..count },
                                p4,
                            ),
                            Outcome::Ask(q) => Outcome::Ask(q),
                            Outcome::Failed(f) => Outcome::Failed(f),
                        },
                        Outcome::Ask(q) => Outcome::Ask(q),
                        Outcome::Failed(f) => Outcome::Failed(f),
                    },
                    Outcome::Ask(q) => Outcome::Ask(q),
                    Outcome::Failed(f) => Outcome::Failed(f),
                }
            },
            Outcome::Ask(q) => Outcome::Ask(q),
            Outcome::Failed(f) => Outcome::Failed(f),
        },
    }
}

fn cleanup_branch(
    out: &Output,
    found: &Vec<FoundBaum>,
    repo_id: &str,
    bare: &str,
    force: bool,
    name: &str,
    count: Cleanup,
    replies: &Vec<Reply>,
    pos: &mut usize,
) -> (r: Progress<Cleanup>)
    ensures
        agrees(
            r,
            *final(pos),
            cleanup_branch_flow(
                *out,
                found.deep_view(),
                repo_id@,
                bare@,
                force,
                name@,
                count,
                replies.deep_view(),
                *old(pos) as int,
            ),
        ),
{
    let id = match find_orphan(found, name) {
        None => {
            return Progress::Done(count);
        },
        Some((id, _)) => id,
    };
    let unpushed = match try_unpushed(bare, name, replies, pos) {
        Progress::Done(u) => u,
        Progress::Ask(q) => {
            return Progress::Ask(q);
        },
        Progress::Failed(f) => {
            return Progress::Failed(f);
        },
    };
    if unpushed && !force {
        let message = cat4(
            repo_id,
            ": ",
            name,
            " has unpushed commits, skipping (use --force to delete)",
        );
        return match say_warn(out, message.as_str(), replies, pos) {
            Progress::Done(_) => Progress::Done(
                Cleanup { removed: count.removed, skipped: count_up(count.skipped) },
            ),
            Progress::Ask(q) => Progress::Ask(q),
            Progress::Failed(f) => Progress::Failed(f),
        };
    }
    let reason = if knows_baum(found, id.as_str()) {
        "worktree removed"
    } else {
        "baum not found"
    };
    let head = cat4(repo_id, ": ", name, " (");
    let target = cat3(head.as_str(), reason, ")");
    match say_status(out, "Deleting", target.as_str(), replies, pos) {
        Progress::Done(_) => {},
        Progress::Ask(q) => {
            return Progress::Ask(q);
        },
        Progress::Failed(f) => {
            return Progress::Failed(f);
        },
    }
    match try_delete_branch(bare, name, force, replies, pos) {
        Progress::Done(None) => Progress::Done(
            Cleanup { removed: count_up(count.removed), skipped: count.skipped },
        ),
        Progress::Done(Some(cause)) => {
            let message = cat4("Failed to delete ", name, ": ", cause.as_str());
            match say_warn(out, message.as_str(), replies, pos) {
                Progress::Done(_) => Progress::Done(
                    Cleanup { removed: count.removed, skipped: count_up(count.skipped) },
                ),
                Progress::Ask(q) => Progress::Ask(q),
                Progress::Failed(f) => Progress::Failed(f),
            }
        },
        Progress::Ask(q) => Progress::Ask(q),
        Progress::Failed(f) => Progress::Failed(f),
    }
}

/// The cleanup of the branches of one bare clone, from index `from` on.
pub open spec fn cleanup_names_flow(
    out: Output,
    found: Seq<FoundBaumView>,
    repo_id: Seq<char>,
    bare: Seq<char>,
    force: bool,
    names: Seq<Seq<char>>,
    from: int,
    count: Cleanup,
    replies: Replies,
    pos: int,
) -> Outcome<Cleanup>
    decreases names.len() - from,
{
    if from < 0 || from >= names.len() {
        Outcome::Done(count, pos)
    } else {
        match cleanup_branch_flow(out, found, repo_id, bare, force, names[from], count, replies, pos) {
            Outcome::Done(next_count, next) => cleanup_names_flow(
                out,
                found,
                repo_id,
                bare,
                force,
                names,
                from + 1,
                next_count,
                replies,
                next,
            ),
            Outcome::Ask(q) => Outcome::Ask(q),
            Outcome::Failed(f) => Outcome::Failed(f),
        }
    }
}

fn cleanup_names(
    out: &Output,
    found: &Vec<FoundBaum>,
    repo_id: &str,
    bare: &str,
    force: bool,
    names: &Vec<String>,
    count: Cleanup,
    replies: &Vec<Reply>,
    pos: &mut usize,
) -> (r: Progress<Cleanup>)
    ensures
        agrees(
            r,
            *final(pos),
            cleanup_names_flow(
                *out,
                found.deep_view(),
                repo_id@,
                bare@,
                force,
                names.deep_view(),
                0,
                count,
                replies.deep_view(),
                *old(pos) as int,
            ),
        ),
{
    let mut current = count;
    let mut i: usize = 0;
    let ghost begin = *pos as int;
    while i < names.len()
        invariant
            i <= names.len(),
            begin == *old(pos) as int,
            cleanup_names_flow(
                *out,
                found.deep_view(),
                repo_id@,
                bare@,
                force,
                names.deep_view(),
                0,
                count,
                replies.deep_view(),
                begin,
            ) == cleanup_names_flow(
                *out,
                found.deep_view(),
                repo_id@,
                bare@,
                force,
                names.deep_view(),
                i as int,
                current,
                replies.deep_view(),
                *pos as int,
            ),
        decreases names.len() - i,
    {
        assert(names.deep_view()[i as int] == names[i as int]@);
        current = match cleanup_branch(
            out,
            found,
            repo_id,
            bare,
            force,
            names[i].as_str(),
            current,
            replies,
            pos,
        ) {
            Progress::Done(c) => c,
            Progress::Ask(q) => {
                return Progress::Ask(q);
            },
            Progress::Failed(f) => {
                return Progress::Failed(f);
            },
        };
        i += 1;
    }
    Progress::Done(current)
}

/// The cleanup of one repository: its bare clone is looked for, its
/// tracking branches are listed, and each is dealt with. A repository
/// without a bare clone, or whose branches cannot be listed, is passed
/// over.
pub open spec fn cleanup_repo_flow(
    ws: WorkspaceView,
    out: Output,
    found: Seq<FoundBaumView>,
    repo_id: Seq<char>,
    force: bool,
    count: Cleanup,
    replies: Replies,
    pos: int,
) -> Outcome<Cleanup> {
    match ws.bare_repo_path(repo_id) {
        Err(_) => Outcome::Done(count, pos),
        Ok(bare) => match stat_step(replies, pos, bare) {
            Outcome::Done(kind, p1) => if kind == PathKind::Missing {
                Outcome::Done(count, p1)
            } else {
                match try_list_flow(bare, replies, p1) {
                    Outcome::Done(None, p2) => Outcome::Done(count, p2),
                    Outcome::Done(Some(names), p2) => cleanup_names_flow(
                        out,
                        found,
                        repo_id,
                        bare,
                        force,
                        names,
                        0,
                        count,
                        replies,
                        p2,
                    ),
                    Outcome::Ask(q) => Outcome::Ask(q),
                    Outcome::Failed(f) => Outcome::Failed(f),
                }
            },
            Outcome::Ask(q) => Outcome::Ask(q),
            Outcome::Failed(f) => Outcome::Failed(f),
        },
    }
}

fn cleanup_repo(
    ws: &Workspace,
    out: &Output,
    found: &Vec<FoundBaum>,
    repo_id: &str,
    force: bool,
    count: Cleanup,
    replies: &Vec<Reply>,
    pos: &mut usize,
) -> (r: Progress<Cleanup>)
    ensures
        agrees(
            r,
            *final(pos),
            cleanup_repo_flow(
                ws@,
                *out,
                found.deep_view(),
                repo_id@,
                force,
                count,
                replies.deep_view(),
                *old(pos) as int,
            ),
        ),
{
    let bare = match ws.bare_repo_path(repo_id) {
        Ok(p) => p,
        Err(_) => {
            return Progress::Done(count);
        },
    };
    match ask_stat(replies, pos, bare.as_str()) {
        Progress::Done(kind) => {
            if kind == PathKind::Missing {
                return Progress::Done(count);
            }
        },
        Progress::Ask(q) => {
            return Progress::Ask(q);
        },
        Progress::Failed(f) => {
            return Progress::Failed(f);
        },
    }
    match try_list_wald_branches(bare.as_str(), replies, pos) {
        Progress::Done(None) => Progress::Done(count),
        Progress::Done(Some(names)) => cleanup_names(
            out,
            found,
            repo_id,
            bare.as_str(),
            force,
            &names,
            count,
            replies,
            pos,
        ),
        Progress::Ask(q) => Progress::Ask(q),
        Progress::Failed(f) => Progress::Failed(f),
    }
}

/// The cleanup of the repositories of the registry from index `from` on.
pub open spec fn cleanup_repos_flow(
    ws: WorkspaceView,
    out: Output,
    found: Seq<FoundBaumView>,
    force: bool,
    from: int,
    count: Cleanup,
    replies: Replies,
    pos: int,
) -> Outcome<Cleanup>
    decreases ws.manifest.len() - from,
{
    if from < 0 || from >= ws.manifest.len() {
        Outcome::Done(count, pos)
    } else {
        match cleanup_repo_flow(ws, out, found, ws.manifest[from].0, force, count, replies, pos) {
            Outcome::Done(next_count, next) => cleanup_repos_flow(
                ws,
                out,
                found,
                force,
                from + 1,
                next_count,
                replies,
                next,
            ),
            Outcome::Ask(q) => Outcome::Ask(q),
            Outcome::Failed(f) => Outcome::Failed(f),
        }
    }
}

fn cleanup_repos(
    ws: &Workspace,
    out: &Output,
    found: &Vec<FoundBaum>,
    force: bool,
    replies: &Vec<Reply>,
    pos: &mut usize,
) -> (r: Progress<Cleanup>)
    ensures
        agrees(
            r,
            *final(pos),
            cleanup_repos_flow(
                ws@,
                *out,
                found.deep_view(),
                force,
                0,
                Cleanup { removed: 0, skipped: 0 },
                replies.deep_view(),
                *old(pos) as int,
            ),
        ),
{
    let mut current = Cleanup { removed: 0, skipped: 0 };
    let n = ws.manifest.repos.len();
    let mut i: usize = 0;
    let ghost begin = *pos as int;
    while i < n
        invariant
            i <= n,
            n == ws@.manifest.len(),
            begin == *old(pos) as int,
            cleanup_repos_flow(
                ws@,
                *out,
                found.deep_view(),
                force,
                0,
                Cleanup { removed: 0, skipped: 0 },
                replies.deep_view(),
                begin,
            ) == cleanup_repos_flow(
                ws@,
                *out,
                found.deep_view(),
                force,
                i as int,
                current,
                replies.deep_view(),
                *pos as int,
            ),
        decreases n - i,
    {
        let repo_id = ws.manifest.repos.key_at(i);
        current = match cleanup_repo(ws, out, found, repo_id, force, current, replies, pos) {
            Progress::Done(c) => c,
            Progress::Ask(q) => {
                return Progress::Ask(q);
            },
            Progress::Failed(f) => {
                return Progress::Failed(f);
            },
        };
        i += 1;
    }
    Progress::Done(current)
}

/// What the cleanup says at its end.
pub open spec fn cleanup_report_flow(out: Output, count: Cleanup, replies: Replies, pos: int)
    -> Outcome<()> {
    let said_removed = if count.removed > 0 {
        success_say(
            out,
            "Deleted "@ + decimal_text(count.removed as nat) + " orphan branch(es)"@,
            replies,
            pos,
        )
    } else {
        Outcome::Done((), pos)
    };
    match said_removed {
        Outcome::Done(_, p1) => {
            let said_skipped = if count.skipped > 0 {
                info_say(
                    out,
                    "Skipped "@ + decimal_text(count.skipped as nat) + " branch(es)"@,
                    replies,
                    p1,
                )
            } else {
                Outcome::Done((), p1)
            };
            match said_skipped {
                Outcome::Done(_, p2) => if count.removed == 0 && count.skipped == 0 {
                    info_say(out, "No orphan branches found"@, replies, p2)
                } else {
                    Outcome::Done((), p2)
                },
                Outcome::Ask(q) => Outcome::Ask(q),
                Outcome::Failed(f) => Outcome::Failed(f),
            }
        },
        Outcome::Ask(q) => Outcome::Ask(q),
        Outcome::Failed(f) => Outcome::Failed(f),
    }
}

fn cleanup_report(out: &Output, count: Cleanup, replies: &Vec<Reply>, pos: &mut usize) -> (r: Progress<
    (),
>)
    ensures
        agrees(
            r,
            *final(pos),
            cleanup_report_flow(*out, count, replies.deep_view(), *old(pos) as int),
        ),
{
    if count.removed > 0 {
        let n = format_decimal(count.removed);
        let message = cat3("Deleted ", n.as_str(), " orphan branch(es)");
        match say_success(out, message.as_str(), replies, pos) {
            Progress::Done(_) => {},
            Progress::Ask(q) => {
                return Progress::Ask(q);
            },
            Progress::Failed(f) => {
                return Progress::Failed(f);
            },
        }
    }
    if count.skipped > 0 {
        let n = format_decimal(count.skipped);
        let message = cat3("Skipped ", n.as_str(), " branch(es)");
        match say_info(out, message.as_str(), replies, pos) {
            Progress::Done(_) => {},
            Progress::Ask(q) => {
                return Progress::Ask(q);
            },
            Progress::Failed(f) => {
                return Progress::Failed(f);
            },
        }
    }
    if count.removed == 0 && count.skipped == 0 {
        return say_info(out, "No orphan branches found", replies, pos);
    }
    Progress::Done(())
}

/// Cleaning up the tracking branches of the workspace.
///
/// The baums of the workspace say which tracking branches are in use. Every
/// registered repository is gone through in registry order, and each of its
/// tracking branches that no baum uses is deleted or skipped. The result
/// counts both.
pub open spec fn prune_branches_flow(
    ws: WorkspaceView,
    force: bool,
    out: Output,
    replies: Replies,
    pos: int,
) -> Outcome<Cleanup> {
    if out.format == OutputFormat::Json {
        Outcome::Failed(json_unsupported("prune --branches"@))
    } else {
        match find_baums_step(replies, pos, ws.root) {
            Outcome::Done(found, p1) => match cleanup_repos_flow(
                ws,
                out,
                found,
                force,
                0,
                Cleanup { removed: 0, skipped: 0 },
                replies,
                p1,
            ) {
                Outcome::Done(count, p2) => match cleanup_report_flow(out, count, replies, p2) {
                    Outcome::Done(_, p3) => Outcome::Done(count, p3),
                    Outcome::Ask(q) => Outcome::Ask(q),
                    Outcome::Failed(f) => Outcome::Failed(f),
                },
                Outcome::Ask(q) => Outcome::Ask(q),
                Outcome::Failed(f) => Outcome::Failed(f),
            },
            Outcome::Ask(q) => Outcome::Ask(q),
            Outcome::Failed(f) => Outcome::Failed(f),
        }
    }
}

/// Cleans up the tracking branches that no baum uses, across all
/// repositories.
pub fn prune_branches(
    ws: &Workspace,
    force: bool,
    out: &Output,
    replies: &Vec<Reply>,
    pos: &mut usize,
) -> (r: Progress<Cleanup>)
    ensures
        agrees(
            r,
            *final(pos),
            prune_branches_flow(ws@, force, *out, replies.deep_view(), *old(pos) as int),
        ),
{
    if let Err(f) = out.require_human("prune --branches") {
        return Progress::Failed(f);
    }
    let found = match find_all_baums(ws.root.as_str(), replies, pos) {
        Progress::Done(b) => b,
        Progress::Ask(q) => {
            return Progress::Ask(q);
        },
        Progress::Failed(f) => {
            return Progress::Failed(f);
        },
    };
    let count = match cleanup_repos(ws, out, &found, force, replies, pos) {
        Progress::Done(c) => c,
        Progress::Ask(q) => {
            return Progress::Ask(q);
        },
        Progress::Failed(f) => {
            return Progress::Failed(f);
        },
    };
    match cleanup_report(out, count, replies, pos) {
        Progress::Done(_) => Progress::Done(count),
        Progress::Ask(q) => Progress::Ask(q),
        Progress::Failed(f) => Progress::Failed(f),
    }
}

/// A tracking branch that some baum uses is never touched: the cleanup
/// passes it over without asking anything and without counting it.
pub proof fn lemma_branch_in_use_is_kept(
    out: Output,
    found: Seq<FoundBaumView>,
    repo_id: Seq<char>,
    bare: Seq<char>,
    force: bool,
    name: Seq<char>,
    count: Cleanup,
    replies: Replies,
    pos: int,
)
    requires
        parsed_tracking(name) matches Some((id, branch)) && in_use(found, id, branch),
    ensures
        cleanup_branch_flow(out, found, repo_id, bare, force, name, count, replies, pos)
            == Outcome::Done(count, pos),
{
}

/// An orphan with commits that were not pushed is not deleted unless the
/// cleanup is forced: nothing is asked of `git` about it after the check.
pub proof fn lemma_unpushed_orphan_is_skipped(
    out: Output,
    found: Seq<FoundBaumView>,
    repo_id: Seq<char>,
    bare: Seq<char>,
    name: Seq<char>,
    count: Cleanup,
    replies: Replies,
    pos: int,
)
    requires
        orphan(found, name).is_some(),
        try_unpushed_flow(bare, name, replies, pos) matches Outcome::Done(unpushed, _) && unpushed,
    ensures
        match cleanup_branch_flow(out, found, repo_id, bare, false, name, count, replies, pos) {
            Outcome::Done(after, _) => after == (Cleanup {
                skipped: one_more(count.skipped),
                ..count
            }),
            Outcome::Ask(q) => q is Say,
            Outcome::Failed(_) => true,
        },
{
}

} // verus!
