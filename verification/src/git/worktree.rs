//! Worktrees of a bare repository and the branches they check out.

use vstd::prelude::*;
use crate::decimal::{parse_decimal, parse_unsigned};
use crate::failure::{failure, ErrorKind, Failure, FailureView};
use crate::flow::{
    agrees, ask_git, ask_git_checked, git_checked_step, git_step, git_try_step, try_git, Outcome,
    Progress, Replies, Reply,
};
use crate::git::shell::{
    git_args, git_c, stderr_message, str_contains, with_stderr, GitOutput, GitOutputView,
};
use crate::id::{format_wald_branch, tracking_name};
use crate::split::{lines, lines_chars, trim, trim_chars, trim_str};
use crate::text::{
    cat, cat3, cat4, cat5, chars_eq, contains_sub, from_chars, has_prefix, starts_with, subvec,
    to_chars,
};

verus! {

broadcast use crate::text::lemma_deep_view_chars;

/// What `git worktree list` reports of one worktree.
#[derive(Debug, PartialEq, Eq)]
pub struct WorktreeInfo {
    pub path: String,
    pub head: Option<String>,
    pub branch: Option<String>,
    pub bare: bool,
    pub detached: bool,
    pub locked: bool,
    pub prunable: bool,
}

/// The value of a `WorktreeInfo`.
pub struct WorktreeInfoView {
    pub path: Seq<char>,
    pub head: Option<Seq<char>>,
    pub branch: Option<Seq<char>>,
    pub bare: bool,
    pub detached: bool,
    pub locked: bool,
    pub prunable: bool,
}

impl View for WorktreeInfo {
    type V = WorktreeInfoView;

    open spec fn view(&self) -> WorktreeInfoView {
        WorktreeInfoView {
            path: self.path@,
            head: self.head.deep_view(),
            branch: self.branch.deep_view(),
            bare: self.bare,
            detached: self.detached,
            locked: self.locked,
            prunable: self.prunable,
        }
    }
}

impl DeepView for WorktreeInfo {
    type V = WorktreeInfoView;

    open spec fn deep_view(&self) -> WorktreeInfoView {
        self@
    }
}

/// The record of a worktree of which nothing is known yet.
pub open spec fn blank_info() -> WorktreeInfoView {
    WorktreeInfoView {
        path: Seq::empty(),
        head: None,
        branch: None,
        bare: false,
        detached: false,
        locked: false,
        prunable: false,
    }
}

impl Default for WorktreeInfo {
    fn default() -> (r: Self)
        ensures
            r@ == blank_info(),
    {
        WorktreeInfo {
            path: String::new(),
            head: None,
            branch: None,
            bare: false,
            detached: false,
            locked: false,
            prunable: false,
        }
    }
}

/// `s` without `prefix` at its start, if it starts with it.
pub open spec fn after_prefix(s: Seq<char>, prefix: Seq<char>) -> Option<Seq<char>> {
    if starts_with(s, prefix) {
        Some(s.skip(prefix.len() as int))
    } else {
        None
    }
}

/// The name of a branch as a worktree record gives it: a reference below
/// `refs/heads/` without that prefix, any other reference whole.
pub open spec fn short_branch(reference: Seq<char>) -> Seq<char> {
    match after_prefix(reference, "refs/heads/"@) {
        Some(name) => name,
        None => reference,
    }
}

/// The record after one more line of the porcelain output, which is not
/// empty, has been read.
pub open spec fn info_with_line(info: WorktreeInfoView, line: Seq<char>) -> WorktreeInfoView {
    if let Some(path) = after_prefix(line, "worktree "@) {
        WorktreeInfoView { path, ..info }
    } else if let Some(head) = after_prefix(line, "HEAD "@) {
        WorktreeInfoView { head: Some(head), ..info }
    } else if let Some(reference) = after_prefix(line, "branch "@) {
        WorktreeInfoView { branch: Some(short_branch(reference)), ..info }
    } else if line == "bare"@ {
        WorktreeInfoView { bare: true, ..info }
    } else if line == "detached"@ {
        WorktreeInfoView { detached: true, ..info }
    } else if starts_with(line, "locked"@) {
        WorktreeInfoView { locked: true, ..info }
    } else if starts_with(line, "prunable"@) {
        WorktreeInfoView { prunable: true, ..info }
    } else {
        info
    }
}

/// The records that are complete after the given lines, and the record that
/// is being read. An empty line completes the record that is being read if
/// that record has a path.
pub open spec fn scanned(all: Seq<Seq<char>>) -> (Seq<WorktreeInfoView>, WorktreeInfoView)
    decreases all.len(),
{
    if all.len() == 0 {
        (Seq::empty(), blank_info())
    } else {
        let (done, current) = scanned(all.drop_last());
        let line = all.last();
        if line.len() == 0 {
            if current.path.len() > 0 {
                (done.push(current), blank_info())
            } else {
                (done, current)
            }
        } else {
            (done, info_with_line(current, line))
        }
    }
}

/// The worktrees that the porcelain output of `git worktree list` reports.
/// The last record need not be followed by an empty line.
pub open spec fn parsed_worktrees(output: Seq<char>) -> Seq<WorktreeInfoView> {
    let (done, current) = scanned(lines(output));
    if current.path.len() > 0 {
        done.push(current)
    } else {
        done
    }
}

fn strip_prefix_chars(s: &Vec<char>, prefix: &str) -> (r: Option<Vec<char>>)
    ensures
        r.deep_view() == after_prefix(s@, prefix@),
{
    let p = to_chars(prefix);
    if has_prefix(s, &p) {
        let out = subvec(s, p.len(), s.len());
        assert(out@ == s@.skip(p.len() as int));
        Some(out)
    } else {
        None
    }
}

fn is_text(s: &Vec<char>, text: &str) -> (r: bool)
    ensures
        r == (s@ == text@),
{
    let t = to_chars(text);
    chars_eq(s, &t)
}

fn starts_with_text(s: &Vec<char>, text: &str) -> (r: bool)
    ensures
        r == starts_with(s@, text@),
{
    let t = to_chars(text);
    has_prefix(s, &t)
}

fn read_info_line(info: WorktreeInfo, line: &Vec<char>) -> (out: WorktreeInfo)
    ensures
        out@ == info_with_line(info@, line@),
{
    let mut info = info;
    if let Some(path) = strip_prefix_chars(line, "worktree ") {
        info.path = from_chars(&path);
    } else if let Some(head) = strip_prefix_chars(line, "HEAD ") {
        info.head = Some(from_chars(&head));
    } else if let Some(reference) = strip_prefix_chars(line, "branch ") {
        let name = match strip_prefix_chars(&reference, "refs/heads/") {
            Some(name) => name,
            None => reference,
        };
        info.branch = Some(from_chars(&name));
    } else if is_text(line, "bare") {
        info.bare = true;
    } else if is_text(line, "detached") {
        info.detached = true;
    } else if starts_with_text(line, "locked") {
        info.locked = true;
    } else if starts_with_text(line, "prunable") {
        info.prunable = true;
    }
    info
}

/// Reads the porcelain output of `git worktree list`.
pub fn parse_worktree_list(output: &str) -> (worktrees: Vec<WorktreeInfo>)
    ensures
        worktrees.deep_view() == parsed_worktrees(output@),
{
    let text = to_chars(output);
    let all = lines_chars(&text);
    let mut worktrees: Vec<WorktreeInfo> = Vec::new();
    let mut current = WorktreeInfo::default();
    let ghost ls = lines(output@);
    let mut i: usize = 0;
    assert(ls.take(0) == Seq::<Seq<char>>::empty());
    assert(worktrees.deep_view() == Seq::<WorktreeInfoView>::empty());
    while i < all.len()
        invariant
            i <= all.len(),
            all.deep_view() == ls,
            (worktrees.deep_view(), current@) == scanned(ls.take(i as int)),
        decreases all.len() - i,
    {
        assert(ls.take(i + 1).drop_last() == ls.take(i as int));
        assert(ls.take(i + 1).last() == all[i as int]@);
        let line = &all[i];
        if line.len() == 0 {
            if current.path.as_str().unicode_len() > 0 {
                let ghost before = worktrees.deep_view();
                let ghost c = current@;
                worktrees.push(current);
                assert(worktrees.deep_view() == before.push(c));
                current = WorktreeInfo::default();
            }
        } else {
            current = read_info_line(current, line);
        }
        i += 1;
    }
    assert(ls.take(ls.len() as int) == ls);
    if current.path.as_str().unicode_len() > 0 {
        let ghost before = worktrees.deep_view();
        let ghost c = current@;
        worktrees.push(current);
        assert(worktrees.deep_view() == before.push(c));
    }
    worktrees
}

/// What is done about a local tracking branch that already exists when a
/// worktree is created.
#[derive(Debug, Clone, Copy, PartialEq, Eq, Structural)]
pub enum BranchMode {
    /// Fail if the branch has commits that were not pushed; else overwrite
    /// it.
    Default,
    /// Delete the branch and create it anew from the remote branch.
    Force,
    /// Keep the branch and check it out, unless it has commits that were
    /// not pushed.
    Reuse,
}

impl Default for BranchMode {
    fn default() -> (r: Self)
        ensures
            r == BranchMode::Default,
    {
        BranchMode::Default
    }
}

/// A failed run of `git`, reported with a message and what `git` wrote to
/// its standard error.
pub open spec fn git_failure(message: Seq<char>, run: GitOutputView) -> FailureView {
    failure(ErrorKind::Git, with_stderr(message, run.stderr))
}

fn git_failed(message: &str, run: &GitOutput) -> (f: Failure)
    ensures
        f@ == git_failure(message@, run@),
{
    Failure::new(ErrorKind::Git, stderr_message(message, run))
}

/// Whether the bare repository has the local branch: `git rev-parse
/// --verify refs/heads/<branch>` succeeds.
pub open spec fn branch_exists_flow(bare: Seq<char>, branch: Seq<char>, replies: Replies, pos: int)
    -> Outcome<bool> {
    match git_step(
        replies,
        pos,
        git_c(bare, seq!["rev-parse"@, "--verify"@, "refs/heads/"@ + branch]),
        "failed to check branch "@ + branch,
    ) {
        Outcome::Done(run, next) => Outcome::Done(run.success, next),
        Outcome::Ask(q) => Outcome::Ask(q),
        Outcome::Failed(f) => Outcome::Failed(f),
    }
}

/// Checks whether a local branch exists in the repository.
pub fn check_branch_exists(bare_repo: &str, branch: &str, replies: &Vec<Reply>, pos: &mut usize) -> (r:
    Progress<bool>)
    ensures
        agrees(
            r,
            *final(pos),
            branch_exists_flow(bare_repo@, branch@, replies.deep_view(), *old(pos) as int),
        ),
{
    let reference = cat("refs/heads/", branch);
    let rest = vec!["rev-parse", "--verify", reference.as_str()];
    assert(rest.deep_view() == seq!["rev-parse"@, "--verify"@, "refs/heads/"@ + branch@]);
    let context = cat("failed to check branch ", branch);
    match ask_git(replies, pos, git_args(bare_repo, rest), context.as_str()) {
        Progress::Done(run) => Progress::Done(run.success),
        Progress::Ask(q) => Progress::Ask(q),
        Progress::Failed(f) => Progress::Failed(f),
    }
}

/// Deleting a local branch: `git branch -d`, or `-D` where it is forced.
pub open spec fn delete_branch_flow(
    bare: Seq<char>,
    branch: Seq<char>,
    force: bool,
    replies: Replies,
    pos: int,
) -> Outcome<()> {
    let flag = if force {
        "-D"@
    } else {
        "-d"@
    };
    match git_step(
        replies,
        pos,
        git_c(bare, seq!["branch"@, flag, branch]),
        "failed to delete branch "@ + branch,
    ) {
        Outcome::Done(run, next) => if run.success {
            Outcome::Done((), next)
        } else {
            Outcome::Failed(git_failure("failed to delete branch "@ + branch, run))
        },
        Outcome::Ask(q) => Outcome::Ask(q),
        Outcome::Failed(f) => Outcome::Failed(f),
    }
}

/// Deletes a local branch.
pub fn delete_branch(
    bare_repo: &str,
    branch: &str,
    force: bool,
    replies: &Vec<Reply>,
    pos: &mut usize,
) -> (r: Progress<()>)
    ensures
        agrees(
            r,
            *final(pos),
            delete_branch_flow(bare_repo@, branch@, force, replies.deep_view(), *old(pos) as int),
        ),
{
    let flag = if force {
        "-D"
    } else {
        "-d"
    };
    let rest = vec!["branch", flag, branch];
    assert(rest.deep_view() == seq!["branch"@, flag@, branch@]);
    let context = cat("failed to delete branch ", branch);
    match ask_git(replies, pos, git_args(bare_repo, rest), context.as_str()) {
        Progress::Done(run) => if run.success {
            Progress::Done(())
        } else {
            Progress::Failed(git_failed(context.as_str(), run))
        },
        Progress::Ask(q) => Progress::Ask(q),
        Progress::Failed(f) => Progress::Failed(f),
    }
}

/// Whether a count of revisions, as `git rev-list --count` prints it, is
/// above zero. A count that cannot be read counts as zero.
pub open spec fn counts_some(stdout: Seq<char>) -> bool {
    match parse_unsigned(trim(stdout), 0xffff_ffff) {
        Some(n) => n > 0,
        None => false,
    }
}

/// Whether a branch has commits that its upstream lacks.
///
/// The upstream is asked for first; a branch without one has nothing
/// unpushed. Then the revisions from the upstream to the branch are
/// counted. Where the count fails the answer is yes, to be on the safe
/// side.
pub open spec fn unpushed_flow(bare: Seq<char>, branch: Seq<char>, replies: Replies, pos: int)
    -> Outcome<bool> {
    match git_step(
        replies,
        pos,
        git_c(bare, seq!["rev-parse"@, "--abbrev-ref"@, branch + "@{upstream}"@]),
        "failed to check upstream for "@ + branch,
    ) {
        Outcome::Done(probe, p1) => if !probe.success {
            Outcome::Done(false, p1)
        } else {
            match git_step(
                replies,
                p1,
                git_c(
                    bare,
                    seq!["rev-list"@, "--count"@, trim(probe.stdout) + ".."@ + branch],
                ),
                "failed to count unpushed commits for "@ + branch,
            ) {
                Outcome::Done(count, p2) => if !count.success {
                    Outcome::Done(true, p2)
                } else {
                    Outcome::Done(counts_some(count.stdout), p2)
                },
                Outcome::Ask(q) => Outcome::Ask(q),
                Outcome::Failed(f) => Outcome::Failed(f),
            }
        },
        Outcome::Ask(q) => Outcome::Ask(q),
        Outcome::Failed(f) => Outcome::Failed(f),
    }
}

fn count_is_positive(stdout: &str) -> (r: bool)
    ensures
        r == counts_some(stdout@),
{
    let text = to_chars(stdout);
    let t = trim_chars(&text);
    match parse_decimal(&t, 0xffff_ffff) {
        Some(n) => n > 0,
        None => false,
    }
}

/// Checks whether a branch has commits that were not pushed to its
/// upstream.
pub fn has_unpushed_commits(bare_repo: &str, branch: &str, replies: &Vec<Reply>, pos: &mut usize) -> (r:
    Progress<bool>)
    ensures
        agrees(
            r,
            *final(pos),
            unpushed_flow(bare_repo@, branch@, replies.deep_view(), *old(pos) as int),
        ),
{
    let spec_name = cat(branch, "@{upstream}");
    let rest = vec!["rev-parse", "--abbrev-ref", spec_name.as_str()];
    assert(rest.deep_view() == seq!["rev-parse"@, "--abbrev-ref"@, branch@ + "@{upstream}"@]);
    let context = cat("failed to check upstream for ", branch);
    let upstream = match ask_git(replies, pos, git_args(bare_repo, rest), context.as_str()) {
        Progress::Done(probe) => {
            if !probe.success {
                return Progress::Done(false);
            }
            trim_str(probe.stdout.as_str())
        },
        Progress::Ask(q) => {
            return Progress::Ask(q);
        },
        Progress::Failed(f) => {
            return Progress::Failed(f);
        },
    };
    let range = cat3(upstream.as_str(), "..", branch);
    let rest = vec!["rev-list", "--count", range.as_str()];
    assert(rest.deep_view() == seq!["rev-list"@, "--count"@, upstream@ + ".."@ + branch@]);
    let context = cat("failed to count unpushed commits for ", branch);
    match ask_git(replies, pos, git_args(bare_repo, rest), context.as_str()) {
        Progress::Done(count) => if !count.success {
            Progress::Done(true)
        } else {
            Progress::Done(count_is_positive(count.stdout.as_str()))
        },
        Progress::Ask(q) => Progress::Ask(q),
        Progress::Failed(f) => Progress::Failed(f),
    }
}

/// Adding a worktree that checks out a branch that exists.
pub open spec fn add_existing_flow(
    bare: Seq<char>,
    worktree_path: Seq<char>,
    branch: Seq<char>,
    replies: Replies,
    pos: int,
) -> Outcome<Seq<char>> {
    match git_step(
        replies,
        pos,
        git_c(bare, seq!["worktree"@, "add"@, worktree_path, branch]),
        "failed to add worktree at "@ + worktree_path + " for branch "@ + branch,
    ) {
        Outcome::Done(run, next) => if run.success {
            Outcome::Done(branch, next)
        } else {
            Outcome::Failed(git_failure("failed to add worktree for branch "@ + branch, run))
        },
        Outcome::Ask(q) => Outcome::Ask(q),
        Outcome::Failed(f) => Outcome::Failed(f),
    }
}

fn add_worktree_for_existing_branch(
    bare_repo: &str,
    worktree_path: &str,
    branch: &str,
    replies: &Vec<Reply>,
    pos: &mut usize,
) -> (r: Progress<String>)
    ensures
        agrees(
            r,
            *final(pos),
            add_existing_flow(
                bare_repo@,
                worktree_path@,
                branch@,
                replies.deep_view(),
                *old(pos) as int,
            ),
        ),
{
    let rest = vec!["worktree", "add", worktree_path, branch];
    assert(rest.deep_view() == seq!["worktree"@, "add"@, worktree_path@, branch@]);
    let context = cat4("failed to add worktree at ", worktree_path, " for branch ", branch);
    match ask_git(replies, pos, git_args(bare_repo, rest), context.as_str()) {
        Progress::Done(run) => if run.success {
            Progress::Done(branch.to_owned())
        } else {
            let message = cat("failed to add worktree for branch ", branch);
            Progress::Failed(git_failed(message.as_str(), run))
        },
        Progress::Ask(q) => Progress::Ask(q),
        Progress::Failed(f) => Progress::Failed(f),
    }
}

/// The error of a tracking branch that holds commits which were not pushed.
pub open spec fn unpushed_failure(local: Seq<char>, mode: BranchMode) -> FailureView {
    if mode == BranchMode::Reuse {
        failure(
            ErrorKind::Precondition,
            "branch '"@ + local
                + "' has unpushed commits; use --force to discard or push changes first"@,
        )
    } else {
        failure(
            ErrorKind::Precondition,
            "branch '"@ + local
                + "' exists with unpushed commits; use --force to overwrite or --reuse to keep"@,
        )
    }
}

fn unpushed_error(local: &str, mode: BranchMode) -> (f: Failure)
    ensures
        f@ == unpushed_failure(local@, mode),
{
    let tail = match mode {
        BranchMode::Reuse => "' has unpushed commits; use --force to discard or push changes first",
        _ => "' exists with unpushed commits; use --force to overwrite or --reuse to keep",
    };
    Failure::new(ErrorKind::Precondition, cat3("branch '", local, tail))
}

/// Whether `git` refused a start point because it does not exist.
pub open spec fn names_no_object(stderr: Seq<char>) -> bool {
    ||| contains_sub(stderr, "not a valid object name"@)
    ||| contains_sub(stderr, "not a valid reference"@)
    ||| contains_sub(stderr, "unknown revision"@)
}

/// Creating the tracking branch, or moving it where it exists: at the
/// remote branch, and at `HEAD` where there is no remote branch.
pub open spec fn create_branch_flow(
    bare: Seq<char>,
    local: Seq<char>,
    remote: Seq<char>,
    replies: Replies,
    pos: int,
) -> Outcome<()> {
    match git_step(
        replies,
        pos,
        git_c(bare, seq!["branch"@, "-f"@, local, remote]),
        "failed to create branch "@ + local,
    ) {
        Outcome::Done(run, p1) => if run.success {
            Outcome::Done((), p1)
        } else if names_no_object(run.stderr) {
            match git_step(
                replies,
                p1,
                git_c(bare, seq!["branch"@, "-f"@, local, "HEAD"@]),
                "failed to create branch "@ + local + " from HEAD"@,
            ) {
                Outcome::Done(again, p2) => if again.success {
                    Outcome::Done((), p2)
                } else {
                    Outcome::Failed(
                        git_failure(
                            "failed to create branch "@ + local + ": remote '"@ + remote
                                + "' not found and no HEAD"@,
                            again,
                        ),
                    )
                },
                Outcome::Ask(q) => Outcome::Ask(q),
                Outcome::Failed(f) => Outcome::Failed(f),
            }
        } else {
            Outcome::Failed(git_failure("failed to create branch "@ + local, run))
        },
        Outcome::Ask(q) => Outcome::Ask(q),
        Outcome::Failed(f) => Outcome::Failed(f),
    }
}

fn create_tracking_branch(
    bare_repo: &str,
    local: &str,
    remote: &str,
    replies: &Vec<Reply>,
    pos: &mut usize,
) -> (r: Progress<()>)
    ensures
        agrees(
            r,
            *final(pos),
            create_branch_flow(bare_repo@, local@, remote@, replies.deep_view(), *old(pos) as int),
        ),
{
    let rest = vec!["branch", "-f", local, remote];
    assert(rest.deep_view() == seq!["branch"@, "-f"@, local@, remote@]);
    let context = cat("failed to create branch ", local);
    let run = match ask_git(replies, pos, git_args(bare_repo, rest), context.as_str()) {
        Progress::Done(run) => run,
        Progress::Ask(q) => {
            return Progress::Ask(q);
        },
        Progress::Failed(f) => {
            return Progress::Failed(f);
        },
    };
    if run.success {
        return Progress::Done(());
    }
    let stderr = run.stderr.as_str();
    if !(str_contains(stderr, "not a valid object name") || str_contains(
        stderr,
        "not a valid reference",
    ) || str_contains(stderr, "unknown revision")) {
        return Progress::Failed(git_failed(context.as_str(), run));
    }
    let rest = vec!["branch", "-f", local, "HEAD"];
    assert(rest.deep_view() == seq!["branch"@, "-f"@, local@, "HEAD"@]);
    let context = cat3("failed to create branch ", local, " from HEAD");
    match ask_git(replies, pos, git_args(bare_repo, rest), context.as_str()) {
        Progress::Done(again) => if again.success {
            Progress::Done(())
        } else {
            let message = cat5(
                "failed to create branch ",
                local,
                ": remote '",
                remote,
                "' not found and no HEAD",
            );
            Progress::Failed(git_failed(message.as_str(), again))
        },
        Progress::Ask(q) => Progress::Ask(q),
        Progress::Failed(f) => Progress::Failed(f),
    }
}

/// Creating the tracking branch afresh and the worktree on it: the branch
/// is created, its upstream is set as far as that goes, and the worktree is
/// added.
pub open spec fn fresh_worktree_flow(
    bare: Seq<char>,
    worktree_path: Seq<char>,
    local: Seq<char>,
    remote: Seq<char>,
    replies: Replies,
    pos: int,
) -> Outcome<Seq<char>> {
    match create_branch_flow(bare, local, remote, replies, pos) {
        Outcome::Done(_, p1) => match git_try_step(
            replies,
            p1,
            git_c(bare, seq!["branch"@, "--set-upstream-to"@, remote, local]),
        ) {
            Outcome::Done(_, p2) => add_existing_flow(bare, worktree_path, local, replies, p2),
            Outcome::Ask(q) => Outcome::Ask(q),
            Outcome::Failed(f) => Outcome::Failed(f),
        },
        Outcome::Ask(q) => Outcome::Ask(q),
        Outcome::Failed(f) => Outcome::Failed(f),
    }
}

/// Adding a worktree on the tracking branch `wald/<baum_id>/<branch>`.
///
/// Where the tracking branch exists, the mode decides. `Force` deletes it.
/// `Reuse` checks it out as it is, and `Default` goes on to overwrite it,
/// but both fail where it has commits that were not pushed. Then the
/// branch is created at `origin/<branch>`, or at `HEAD` where the remote
/// branch does not exist, and the worktree is added. The result is the name
/// of the tracking branch.
pub open spec fn tracking_flow(
    bare: Seq<char>,
    worktree_path: Seq<char>,
    branch: Seq<char>,
    baum_id: Seq<char>,
    mode: BranchMode,
    replies: Replies,
    pos: int,
) -> Outcome<Seq<char>> {
    let local = tracking_name(baum_id, branch);
    let remote = "origin/"@ + branch;
    match branch_exists_flow(bare, local, replies, pos) {
        Outcome::Done(exists, p1) => if !exists {
            fresh_worktree_flow(bare, worktree_path, local, remote, replies, p1)
        } else if mode == BranchMode::Force {
            match delete_branch_flow(bare, local, true, replies, p1) {
                Outcome::Done(_, p2) => fresh_worktree_flow(
                    bare,
                    worktree_path,
                    local,
                    remote,
                    replies,
                    p2,
                ),
                Outcome::Ask(q) => Outcome::Ask(q),
                Outcome::Failed(f) => Outcome::Failed(f),
            }
        } else {
            match unpushed_flow(bare, local, replies, p1) {
                Outcome::Done(unpushed, p2) => if unpushed {
                    Outcome::Failed(unpushed_failure(local, mode))
                } else if mode == BranchMode::Reuse {
                    add_existing_flow(bare, worktree_path, local, replies, p2)
                } else {
                    fresh_worktree_flow(bare, worktree_path, local, remote, replies, p2)
                },
                Outcome::Ask(q) => Outcome::Ask(q),
                Outcome::Failed(f) => Outcome::Failed(f),
            }
        },
        Outcome::Ask(q) => Outcome::Ask(q),
        Outcome::Failed(f) => Outcome::Failed(f),
    }
}

fn add_fresh_worktree(
    bare_repo: &str,
    worktree_path: &str,
    local: &str,
    remote: &str,
    replies: &Vec<Reply>,
    pos: &mut usize,
) -> (r: Progress<String>)
    ensures
        agrees(
            r,
            *final(pos),
            fresh_worktree_flow(
                bare_repo@,
                worktree_path@,
                local@,
                remote@,
                replies.deep_view(),
                *old(pos) as int,
            ),
        ),
{
    match create_tracking_branch(bare_repo, local, remote, replies, pos) {
        Progress::Done(_) => {},
        Progress::Ask(q) => {
            return Progress::Ask(q);
        },
        Progress::Failed(f) => {
            return Progress::Failed(f);
        },
    }
    let rest = vec!["branch", "--set-upstream-to", remote, local];
    assert(rest.deep_view() == seq!["branch"@, "--set-upstream-to"@, remote@, local@]);
    match try_git(replies, pos, git_args(bare_repo, rest)) {
        Progress::Done(_) => {},
        Progress::Ask(q) => {
            return Progress::Ask(q);
        },
        Progress::Failed(f) => {
            return Progress::Failed(f);
        },
    }
    add_worktree_for_existing_branch(bare_repo, worktree_path, local, replies, pos)
}

/// Adds a worktree with a local tracking branch, with the given way of
/// handling a tracking branch that exists.
pub fn add_worktree_with_tracking_mode(
    bare_repo: &str,
    worktree_path: &str,
    branch: &str,
    baum_id: &str,
    mode: BranchMode,
    replies: &Vec<Reply>,
    pos: &mut usize,
) -> (r: Progress<String>)
    ensures
        agrees(
            r,
            *final(pos),
            tracking_flow(
                bare_repo@,
                worktree_path@,
                branch@,
                baum_id@,
                mode,
                replies.deep_view(),
                *old(pos) as int,
            ),
        ),
{
    let local = format_wald_branch(baum_id, branch);
    let remote = cat("origin/", branch);
    let exists = match check_branch_exists(bare_repo, local.as_str(), replies, pos) {
        Progress::Done(e) => e,
        Progress::Ask(q) => {
            return Progress::Ask(q);
        },
        Progress::Failed(f) => {
            return Progress::Failed(f);
        },
    };
    if exists {
        match mode {
            BranchMode::Force => {
                match delete_branch(bare_repo, local.as_str(), true, replies, pos) {
                    Progress::Done(_) => {},
                    Progress::Ask(q) => {
                        return Progress::Ask(q);
                    },
                    Progress::Failed(f) => {
                        return Progress::Failed(f);
                    },
                }
            },
            _ => {
                match has_unpushed_commits(bare_repo, local.as_str(), replies, pos) {
                    Progress::Done(unpushed) => {
                        if unpushed {
                            return Progress::Failed(unpushed_error(local.as_str(), mode));
                        }
                    },
                    Progress::Ask(q) => {
                        return Progress::Ask(q);
                    },
                    Progress::Failed(f) => {
                        return Progress::Failed(f);
                    },
                }
                if mode == BranchMode::Reuse {
                    return add_worktree_for_existing_branch(
                        bare_repo,
                        worktree_path,
                        local.as_str(),
                        replies,
                        pos,
                    );
                }
            },
        }
    }
    add_fresh_worktree(bare_repo, worktree_path, local.as_str(), remote.as_str(), replies, pos)
}

/// Adds a worktree with a local tracking branch. A tracking branch that
/// exists is overwritten unless it has commits that were not pushed.
pub fn add_worktree_with_tracking(
    bare_repo: &str,
    worktree_path: &str,
    branch: &str,
    baum_id: &str,
    replies: &Vec<Reply>,
    pos: &mut usize,
) -> (r: Progress<String>)
    ensures
        agrees(
            r,
            *final(pos),
            tracking_flow(
                bare_repo@,
                worktree_path@,
                branch@,
                baum_id@,
                BranchMode::Default,
                replies.deep_view(),
                *old(pos) as int,
            ),
        ),
{
    add_worktree_with_tracking_mode(
        bare_repo,
        worktree_path,
        branch,
        baum_id,
        BranchMode::Default,
        replies,
        pos,
    )
}

/// A worktree that was added checks out the tracking branch of its baum and
/// its branch, whatever the mode and whatever `git` answered.
pub proof fn lemma_tracking_names_branch(
    bare: Seq<char>,
    worktree_path: Seq<char>,
    branch: Seq<char>,
    baum_id: Seq<char>,
    mode: BranchMode,
    replies: Replies,
    pos: int,
)
    ensures
        tracking_flow(bare, worktree_path, branch, baum_id, mode, replies, pos) matches Outcome::Done(
            name,
            _,
        ) ==> name == tracking_name(baum_id, branch),
{
}

/// A tracking branch that exists and holds commits which were not pushed
/// stops both `Default` and `Reuse`; only `Force` goes on, and it never asks
/// whether anything is unpushed.
pub proof fn lemma_unpushed_commits_are_kept(
    bare: Seq<char>,
    worktree_path: Seq<char>,
    branch: Seq<char>,
    baum_id: Seq<char>,
    mode: BranchMode,
    replies: Replies,
    pos: int,
)
    requires
        branch_exists_flow(bare, tracking_name(baum_id, branch), replies, pos) matches Outcome::Done(
            exists,
            p1,
        ) && exists && (unpushed_flow(bare, tracking_name(baum_id, branch), replies, p1)
            matches Outcome::Done(unpushed, _) && unpushed),
        mode != BranchMode::Force,
    ensures
        tracking_flow(bare, worktree_path, branch, baum_id, mode, replies, pos) == Outcome::<
            Seq<char>,
        >::Failed(unpushed_failure(tracking_name(baum_id, branch), mode)),
{
}

/// Removing a worktree: `git worktree remove`, with `--force` where it is
/// forced.
pub open spec fn remove_worktree_flow(
    bare: Seq<char>,
    worktree_path: Seq<char>,
    force: bool,
    replies: Replies,
    pos: int,
) -> Outcome<()> {
    let rest = if force {
        seq!["worktree"@, "remove"@, "--force"@, worktree_path]
    } else {
        seq!["worktree"@, "remove"@, worktree_path]
    };
    let message = "failed to remove worktree at "@ + worktree_path;
    match git_checked_step(replies, pos, git_c(bare, rest), message, message) {
        Outcome::Done(_, next) => Outcome::Done((), next),
        Outcome::Ask(q) => Outcome::Ask(q),
        Outcome::Failed(f) => Outcome::Failed(f),
    }
}

/// Removes a worktree.
pub fn remove_worktree(
    bare_repo: &str,
    worktree_path: &str,
    force: bool,
    replies: &Vec<Reply>,
    pos: &mut usize,
) -> (r: Progress<()>)
    ensures
        agrees(
            r,
            *final(pos),
            remove_worktree_flow(
                bare_repo@,
                worktree_path@,
                force,
                replies.deep_view(),
                *old(pos) as int,
            ),
        ),
{
    let rest = if force {
        let rest = vec!["worktree", "remove", "--force", worktree_path];
        assert(rest.deep_view() == seq!["worktree"@, "remove"@, "--force"@, worktree_path@]);
        rest
    } else {
        let rest = vec!["worktree", "remove", worktree_path];
        assert(rest.deep_view() == seq!["worktree"@, "remove"@, worktree_path@]);
        rest
    };
    let message = cat("failed to remove worktree at ", worktree_path);
    match ask_git_checked(replies, pos, git_args(bare_repo, rest), message.as_str(), message.as_str()) {
        Progress::Done(_) => Progress::Done(()),
        Progress::Ask(q) => Progress::Ask(q),
        Progress::Failed(f) => Progress::Failed(f),
    }
}

/// Listing the worktrees of a bare repository: `git worktree list
/// --porcelain`, read record by record.
pub open spec fn list_worktrees_flow(bare: Seq<char>, replies: Replies, pos: int) -> Outcome<
    Seq<WorktreeInfoView>,
> {
    let message = "failed to list worktrees for "@ + bare;
    match git_checked_step(
        replies,
        pos,
        git_c(bare, seq!["worktree"@, "list"@, "--porcelain"@]),
        message,
        message,
    ) {
        Outcome::Done(run, next) => Outcome::Done(parsed_worktrees(run.stdout), next),
        Outcome::Ask(q) => Outcome::Ask(q),
        Outcome::Failed(f) => Outcome::Failed(f),
    }
}

/// Lists the worktrees of a bare repository.
pub fn list_worktrees(bare_repo: &str, replies: &Vec<Reply>, pos: &mut usize) -> (r: Progress<
    Vec<WorktreeInfo>,
>)
    ensures
        agrees(r, *final(pos), list_worktrees_flow(bare_repo@, replies.deep_view(), *old(pos) as int)),
{
    let rest = vec!["worktree", "list", "--porcelain"];
    assert(rest.deep_view() == seq!["worktree"@, "list"@, "--porcelain"@]);
    let message = cat("failed to list worktrees for ", bare_repo);
    match ask_git_checked(replies, pos, git_args(bare_repo, rest), message.as_str(), message.as_str()) {
        Progress::Done(run) => Progress::Done(parse_worktree_list(run.stdout.as_str())),
        Progress::Ask(q) => Progress::Ask(q),
        Progress::Failed(f) => Progress::Failed(f),
    }
}

/// The mark that `git branch --list` puts before the current branch.
pub open spec fn current_mark() -> Seq<char> {
    seq!['*', ' ']
}

/// A line of `git branch --list` without the marks of the current branch
/// before the name.
pub open spec fn without_marks(line: Seq<char>) -> Seq<char>
    decreases line.len(),
{
    if starts_with(line, current_mark()) {
        without_marks(line.skip(2))
    } else {
        line
    }
}

/// The branch names among the lines of `git branch --list`: each line
/// trimmed and without marks, empty names left out.
pub open spec fn branch_names(all: Seq<Seq<char>>) -> Seq<Seq<char>>
    decreases all.len(),
{
    if all.len() == 0 {
        Seq::<Seq<char>>::empty()
    } else {
        let name = without_marks(trim(all.last()));
        if name.len() == 0 {
            branch_names(all.drop_last())
        } else {
            branch_names(all.drop_last()).push(name)
        }
    }
}

fn strip_marks(line: &Vec<char>) -> (out: Vec<char>)
    ensures
        out@ == without_marks(line@),
{
    let n: usize = line.len();
    let mut i: usize = 0;
    assert(line@.skip(0) == line@);
    while n - i >= 2 && line[i] == '*' && line[i + 1] == ' '
        invariant
            i <= n,
            n == line.len(),
            without_marks(line@) == without_marks(line@.skip(i as int)),
        decreases n - i,
    {
        let ghost rest = line@.skip(i as int);
        assert(rest.subrange(0, 2) == current_mark());
        assert(rest.skip(2) == line@.skip(i + 2));
        i += 2;
    }
    let ghost rest = line@.skip(i as int);
    assert(!starts_with(rest, current_mark())) by {
        if starts_with(rest, current_mark()) {
            assert(rest.subrange(0, 2)[0] == '*');
            assert(rest.subrange(0, 2)[1] == ' ');
        }
    }
    subvec(line, i, n)
}

/// Reads the branch names from the output of `git branch --list`.
pub fn parse_branch_list(output: &str) -> (names: Vec<String>)
    ensures
        names.deep_view() == branch_names(lines(output@)),
{
    let text = to_chars(output);
    let all = lines_chars(&text);
    let mut names: Vec<String> = Vec::new();
    let ghost ls = lines(output@);
    let mut i: usize = 0;
    assert(ls.take(0) == Seq::<Seq<char>>::empty());
    assert(names.deep_view() == Seq::<Seq<char>>::empty());
    while i < all.len()
        invariant
            i <= all.len(),
            all.deep_view() == ls,
            names.deep_view() == branch_names(ls.take(i as int)),
        decreases all.len() - i,
    {
        assert(ls.take(i + 1).drop_last() == ls.take(i as int));
        assert(ls.take(i + 1).last() == all[i as int]@);
        let t = trim_chars(&all[i]);
        let name = strip_marks(&t);
        if name.len() > 0 {
            let ghost before = names.deep_view();
            names.push(from_chars(&name));
            assert(names.deep_view() == before.push(name@));
        }
        i += 1;
    }
    assert(ls.take(ls.len() as int) == ls);
    names
}

/// Listing the tracking branches of a bare repository: `git branch --list
/// wald/*`.
pub open spec fn list_wald_branches_flow(bare: Seq<char>, replies: Replies, pos: int) -> Outcome<
    Seq<Seq<char>>,
> {
    match git_checked_step(
        replies,
        pos,
        git_c(bare, seq!["branch"@, "--list"@, "wald/*"@]),
        "failed to list wald branches"@,
        "failed to list wald branches"@,
    ) {
        Outcome::Done(run, next) => Outcome::Done(branch_names(lines(run.stdout)), next),
        Outcome::Ask(q) => Outcome::Ask(q),
        Outcome::Failed(f) => Outcome::Failed(f),
    }
}

/// Lists the branches of a bare repository whose names start with `wald/`.
pub fn list_wald_branches(bare_repo: &str, replies: &Vec<Reply>, pos: &mut usize) -> (r: Progress<
    Vec<String>,
>)
    ensures
        agrees(
            r,
            *final(pos),
            list_wald_branches_flow(bare_repo@, replies.deep_view(), *old(pos) as int),
        ),
{
    let rest = vec!["branch", "--list", "wald/*"];
    assert(rest.deep_view() == seq!["branch"@, "--list"@, "wald/*"@]);
    match ask_git_checked(
        replies,
        pos,
        git_args(bare_repo, rest),
        "failed to list wald branches",
        "failed to list wald branches",
    ) {
        Progress::Done(run) => Progress::Done(parse_branch_list(run.stdout.as_str())),
        Progress::Ask(q) => Progress::Ask(q),
        Progress::Failed(f) => Progress::Failed(f),
    }
}

/// Whether `git` refused a branch because it is no reference.
pub open spec fn names_no_reference(stderr: Seq<char>) -> bool {
    contains_sub(stderr, "not a valid reference"@) || contains_sub(stderr, "invalid reference"@)
}

/// Adding a worktree that checks out the branch itself, as baums did before
/// tracking branches. A branch that does not exist is created from
/// `origin/<branch>`, and from `HEAD` where that fails too.
pub open spec fn add_worktree_flow(
    bare: Seq<char>,
    worktree_path: Seq<char>,
    branch: Seq<char>,
    replies: Replies,
    pos: int,
) -> Outcome<()> {
    let message = "failed to add worktree for branch "@ + branch;
    match git_step(
        replies,
        pos,
        git_c(bare, seq!["worktree"@, "add"@, worktree_path, branch]),
        "failed to add worktree at "@ + worktree_path + " for branch "@ + branch,
    ) {
        Outcome::Done(first, p1) => if first.success {
            Outcome::Done((), p1)
        } else if !names_no_reference(first.stderr) {
            Outcome::Failed(git_failure(message, first))
        } else {
            match git_step(
                replies,
                p1,
                git_c(
                    bare,
                    seq!["worktree"@, "add"@, "-b"@, branch, worktree_path, "origin/"@ + branch],
                ),
                "failed to create branch "@ + branch + " for worktree"@,
            ) {
                Outcome::Done(second, p2) => if second.success {
                    Outcome::Done((), p2)
                } else {
                    match git_checked_step(
                        replies,
                        p2,
                        git_c(bare, seq!["worktree"@, "add"@, "-b"@, branch, worktree_path]),
                        "failed to create new branch "@ + branch + " for worktree"@,
                        message,
                    ) {
                        Outcome::Done(_, p3) => Outcome::Done((), p3),
                        Outcome::Ask(q) => Outcome::Ask(q),
                        Outcome::Failed(f) => Outcome::Failed(f),
                    }
                },
                Outcome::Ask(q) => Outcome::Ask(q),
                Outcome::Failed(f) => Outcome::Failed(f),
            }
        },
        Outcome::Ask(q) => Outcome::Ask(q),
        Outcome::Failed(f) => Outcome::Failed(f),
    }
}

/// Adds a worktree that checks out `branch` itself.
pub fn add_worktree(
    bare_repo: &str,
    worktree_path: &str,
    branch: &str,
    replies: &Vec<Reply>,
    pos: &mut usize,
) -> (r: Progress<()>)
    ensures
        agrees(
            r,
            *final(pos),
            add_worktree_flow(
                bare_repo@,
                worktree_path@,
                branch@,
                replies.deep_view(),
                *old(pos) as int,
            ),
        ),
{
    let message = cat("failed to add worktree for branch ", branch);
    let rest = vec!["worktree", "add", worktree_path, branch];
    assert(rest.deep_view() == seq!["worktree"@, "add"@, worktree_path@, branch@]);
    let context = cat4("failed to add worktree at ", worktree_path, " for branch ", branch);
    let first = match ask_git(replies, pos, git_args(bare_repo, rest), context.as_str()) {
        Progress::Done(run) => run,
        Progress::Ask(q) => {
            return Progress::Ask(q);
        },
        Progress::Failed(f) => {
            return Progress::Failed(f);
        },
    };
    if first.success {
        return Progress::Done(());
    }
    let stderr = first.stderr.as_str();
    if !(str_contains(stderr, "not a valid reference") || str_contains(stderr, "invalid reference")) {
        return Progress::Failed(git_failed(message.as_str(), first));
    }
    let remote = cat("origin/", branch);
    let rest = vec!["worktree", "add", "-b", branch, worktree_path, remote.as_str()];
    assert(rest.deep_view() == seq![
        "worktree"@,
        "add"@,
        "-b"@,
        branch@,
        worktree_path@,
        "origin/"@ + branch@,
    ]);
    let context = cat3("failed to create branch ", branch, " for worktree");
    let second = match ask_git(replies, pos, git_args(bare_repo, rest), context.as_str()) {
        Progress::Done(run) => run,
        Progress::Ask(q) => {
            return Progress::Ask(q);
        },
        Progress::Failed(f) => {
            return Progress::Failed(f);
        },
    };
    if second.success {
        return Progress::Done(());
    }
    let rest = vec!["worktree", "add", "-b", branch, worktree_path];
    assert(rest.deep_view() == seq!["worktree"@, "add"@, "-b"@, branch@, worktree_path@]);
    let context = cat3("failed to create new branch ", branch, " for worktree");
    match ask_git_checked(replies, pos, git_args(bare_repo, rest), context.as_str(), message.as_str()) {
        Progress::Done(_) => Progress::Done(()),
        Progress::Ask(q) => Progress::Ask(q),
        Progress::Failed(f) => Progress::Failed(f),
    }
}

} // verus!
