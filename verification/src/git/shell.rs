//! What comes back from a run of the `git` binary.

use vstd::prelude::*;
use crate::flow::{
    agrees, ask_git_checked, git_checked_step, Outcome, Progress, Replies, Reply,
};
use crate::split::{trim, trim_str};
use crate::text::{append_str, cat, cat4, contains, contains_sub, from_chars, to_chars};

verus! {

/// The outcome of one run of `git`: whether it exited with success, and
/// what it wrote to its standard output and its standard error.
#[derive(Debug)]
pub struct GitOutput {
    pub success: bool,
    pub stdout: String,
    pub stderr: String,
}

/// The value of a `GitOutput`.
pub struct GitOutputView {
    pub success: bool,
    pub stdout: Seq<char>,
    pub stderr: Seq<char>,
}

impl View for GitOutput {
    type V = GitOutputView;

    open spec fn view(&self) -> GitOutputView {
        GitOutputView { success: self.success, stdout: self.stdout@, stderr: self.stderr@ }
    }
}

impl DeepView for GitOutput {
    type V = GitOutputView;

    open spec fn deep_view(&self) -> GitOutputView {
        self@
    }
}

impl Clone for GitOutput {
    fn clone(&self) -> (r: Self)
        ensures
            r@ == self@,
    {
        GitOutput {
            success: self.success,
            stdout: self.stdout.clone(),
            stderr: self.stderr.clone(),
        }
    }
}

/// The arguments of a run of `git` in the repository at `repo`.
pub open spec fn git_c(repo: Seq<char>, rest: Seq<Seq<char>>) -> Seq<Seq<char>> {
    seq!["-C"@, repo] + rest
}

/// Builds the arguments of a run of `git` in the repository at `repo`.
pub fn git_args(repo: &str, rest: Vec<&str>) -> (args: Vec<String>)
    ensures
        args.deep_view() == git_c(repo@, rest.deep_view()),
{
    let mut args: Vec<String> = Vec::new();
    args.push("-C".to_owned());
    args.push(repo.to_owned());
    let ghost head = args.deep_view();
    assert(head == seq!["-C"@, repo@]);
    let mut i: usize = 0;
    assert(rest.deep_view().take(0) == Seq::<Seq<char>>::empty());
    assert(args.deep_view() == head + rest.deep_view().take(0));
    while i < rest.len()
        invariant
            i <= rest.len(),
            args.deep_view() == head + rest.deep_view().take(i as int),
        decreases rest.len() - i,
    {
        let ghost before = args.deep_view();
        args.push(rest[i].to_owned());
        assert(args.deep_view() == before.push(rest[i as int]@));
        assert(rest.deep_view().take(i + 1) == rest.deep_view().take(i as int).push(
            rest.deep_view()[i as int],
        ));
        i += 1;
    }
    assert(rest.deep_view().take(rest.len() as int) == rest.deep_view());
    args
}

/// A message, a colon, and what `git` wrote to its standard error, trimmed.
pub open spec fn with_stderr(message: Seq<char>, stderr: Seq<char>) -> Seq<char> {
    message + ": "@ + trim(stderr)
}

/// Builds a message that ends in what `git` wrote to its standard error.
pub fn stderr_message(message: &str, run: &GitOutput) -> (out: String)
    ensures
        out@ == with_stderr(message@, run@.stderr),
{
    let mut m = to_chars(message);
    append_str(&mut m, ": ");
    let t = trim_str(run.stderr.as_str());
    append_str(&mut m, t.as_str());
    from_chars(&m)
}

/// Whether `needle` occurs in `hay`.
pub fn str_contains(hay: &str, needle: &str) -> (r: bool)
    ensures
        r == contains_sub(hay@, needle@),
{
    let h = to_chars(hay);
    let n = to_chars(needle);
    contains(&h, &n)
}

/// Moving a worktree with `git worktree move`, which keeps the registry of
/// the bare repository in step with the file system.
pub open spec fn worktree_move_flow(
    bare: Seq<char>,
    from: Seq<char>,
    to: Seq<char>,
    replies: Replies,
    pos: int,
) -> Outcome<()> {
    let message = "failed to move worktree from "@ + from + " to "@ + to;
    match git_checked_step(
        replies,
        pos,
        git_c(bare, seq!["worktree"@, "move"@, from, to]),
        message,
        message,
    ) {
        Outcome::Done(_, next) => Outcome::Done((), next),
        Outcome::Ask(q) => Outcome::Ask(q),
        Outcome::Failed(f) => Outcome::Failed(f),
    }
}

/// Moves a worktree and updates the registry of the bare repository.
pub fn worktree_move(bare_repo: &str, from: &str, to: &str, replies: &Vec<Reply>, pos: &mut usize) -> (r:
    Progress<()>)
    ensures
        agrees(
            r,
            *final(pos),
            worktree_move_flow(bare_repo@, from@, to@, replies.deep_view(), *old(pos) as int),
        ),
{
    let rest = vec!["worktree", "move", from, to];
    assert(rest.deep_view() == seq!["worktree"@, "move"@, from@, to@]);
    let message = cat4("failed to move worktree from ", from, " to ", to);
    match ask_git_checked(replies, pos, git_args(bare_repo, rest), message.as_str(), message.as_str()) {
        Progress::Done(_) => Progress::Done(()),
        Progress::Ask(q) => Progress::Ask(q),
        Progress::Failed(f) => Progress::Failed(f),
    }
}

/// Dropping the entries of worktrees that are gone: `git worktree prune`.
pub open spec fn worktree_prune_flow(bare: Seq<char>, replies: Replies, pos: int) -> Outcome<()> {
    let message = "failed to prune worktrees in "@ + bare;
    match git_checked_step(
        replies,
        pos,
        git_c(bare, seq!["worktree"@, "prune"@]),
        message,
        message,
    ) {
        Outcome::Done(_, next) => Outcome::Done((), next),
        Outcome::Ask(q) => Outcome::Ask(q),
        Outcome::Failed(f) => Outcome::Failed(f),
    }
}

/// Prunes the entries of worktrees that are gone.
pub fn worktree_prune(bare_repo: &str, replies: &Vec<Reply>, pos: &mut usize) -> (r: Progress<()>)
    ensures
        agrees(r, *final(pos), worktree_prune_flow(bare_repo@, replies.deep_view(), *old(pos) as int)),
{
    let rest = vec!["worktree", "prune"];
    assert(rest.deep_view() == seq!["worktree"@, "prune"@]);
    let message = cat("failed to prune worktrees in ", bare_repo);
    match ask_git_checked(replies, pos, git_args(bare_repo, rest), message.as_str(), message.as_str()) {
        Progress::Done(_) => Progress::Done(()),
        Progress::Ask(q) => Progress::Ask(q),
        Progress::Failed(f) => Progress::Failed(f),
    }
}

/// Staging the move of a file: `git mv`.
pub open spec fn git_mv_flow(repo: Seq<char>, from: Seq<char>, to: Seq<char>, replies: Replies, pos: int)
    -> Outcome<()> {
    match git_checked_step(
        replies,
        pos,
        git_c(repo, seq!["mv"@, from, to]),
        "failed to git mv from "@ + from + " to "@ + to,
        "git mv failed from "@ + from + " to "@ + to,
    ) {
        Outcome::Done(_, next) => Outcome::Done((), next),
        Outcome::Ask(q) => Outcome::Ask(q),
        Outcome::Failed(f) => Outcome::Failed(f),
    }
}

/// Stages the move of a file so that it is recorded as a rename.
pub fn git_mv(repo: &str, from: &str, to: &str, replies: &Vec<Reply>, pos: &mut usize) -> (r: Progress<
    (),
>)
    ensures
        agrees(
            r,
            *final(pos),
            git_mv_flow(repo@, from@, to@, replies.deep_view(), *old(pos) as int),
        ),
{
    let rest = vec!["mv", from, to];
    assert(rest.deep_view() == seq!["mv"@, from@, to@]);
    let context = cat4("failed to git mv from ", from, " to ", to);
    let message = cat4("git mv failed from ", from, " to ", to);
    match ask_git_checked(replies, pos, git_args(repo, rest), context.as_str(), message.as_str()) {
        Progress::Done(_) => Progress::Done(()),
        Progress::Ask(q) => Progress::Ask(q),
        Progress::Failed(f) => Progress::Failed(f),
    }
}

/// The commit that `HEAD` names: what `git rev-parse HEAD` prints, trimmed.
pub open spec fn head_commit_flow(repo: Seq<char>, replies: Replies, pos: int) -> Outcome<Seq<char>> {
    let message = "failed to get HEAD commit in "@ + repo;
    match git_checked_step(replies, pos, git_c(repo, seq!["rev-parse"@, "HEAD"@]), message, message) {
        Outcome::Done(run, next) => Outcome::Done(trim(run.stdout), next),
        Outcome::Ask(q) => Outcome::Ask(q),
        Outcome::Failed(f) => Outcome::Failed(f),
    }
}

/// The hash of the commit that `HEAD` names.
pub fn get_head_commit(repo: &str, replies: &Vec<Reply>, pos: &mut usize) -> (r: Progress<String>)
    ensures
        agrees(r, *final(pos), head_commit_flow(repo@, replies.deep_view(), *old(pos) as int)),
{
    let rest = vec!["rev-parse", "HEAD"];
    assert(rest.deep_view() == seq!["rev-parse"@, "HEAD"@]);
    let message = cat("failed to get HEAD commit in ", repo);
    match ask_git_checked(replies, pos, git_args(repo, rest), message.as_str(), message.as_str()) {
        Progress::Done(run) => Progress::Done(trim_str(run.stdout.as_str())),
        Progress::Ask(q) => Progress::Ask(q),
        Progress::Failed(f) => Progress::Failed(f),
    }
}

} // verus!
