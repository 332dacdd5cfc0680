//! Bare clones: how they are made, refreshed and asked about.

use vstd::prelude::*;
use crate::decimal::{decimal_text, format_decimal};
use crate::failure::{failure, ErrorKind, Failure};
use crate::flow::{
    agrees, ask_done, ask_flag, ask_git, ask_git_checked, ask_name, ask_names, ask_stat, done_step,
    flag_step, git_checked_step, git_step, git_try_step, name_step, names_step, stat_step, try_git,
    Outcome, PathKind, Progress, Replies, Reply, Request, RequestView,
};
use crate::git::shell::{git_args, git_c};
use crate::git::worktree::after_prefix;
use crate::paths::{parent, parent_of};
use crate::split::{trim, trim_str};
use crate::text::{cat, has_prefix, str_eq, subvec, to_chars, from_chars};
use crate::types::repo_id::{RepoId, RepoIdView};

verus! {

broadcast use crate::text::lemma_deep_view_chars;

/// How a bare clone is made.
#[derive(Debug)]
pub struct CloneOptions {
    /// The number of commits of a shallow clone; the whole history where
    /// there is none.
    pub depth: Option<u32>,
    /// The filter of a partial clone; a full clone where there is none.
    pub filter: Option<String>,
}

/// The value of a `CloneOptions`.
pub struct CloneOptionsView {
    pub depth: Option<u32>,
    pub filter: Option<Seq<char>>,
}

impl View for CloneOptions {
    type V = CloneOptionsView;

    open spec fn view(&self) -> CloneOptionsView {
        CloneOptionsView { depth: self.depth, filter: self.filter.deep_view() }
    }
}

impl Default for CloneOptions {
    /// The whole history and every object.
    fn default() -> (out: Self)
        ensures
            out@ == (CloneOptionsView { depth: None, filter: None }),
    {
        CloneOptions { depth: None, filter: None }
    }
}

/// The arguments of the `git` run that makes a bare clone.
pub open spec fn clone_args(url: Seq<char>, target: Seq<char>, opts: CloneOptionsView) -> Seq<
    Seq<char>,
> {
    let depth = match opts.depth {
        Some(d) => seq!["--depth="@ + decimal_text(d as nat)],
        None => Seq::<Seq<char>>::empty(),
    };
    let filter = match opts.filter {
        Some(f) => seq!["--filter="@ + f],
        None => Seq::<Seq<char>>::empty(),
    };
    seq!["clone"@, "--bare"@, "--quiet"@] + depth + filter + seq![url, target]
}

fn build_clone_args(url: &str, target: &str, opts: &CloneOptions) -> (args: Vec<String>)
    ensures
        args.deep_view() == clone_args(url@, target@, opts@),
{
    let mut args: Vec<String> = Vec::new();
    args.push("clone".to_owned());
    args.push("--bare".to_owned());
    args.push("--quiet".to_owned());
    assert(args.deep_view() == seq!["clone"@, "--bare"@, "--quiet"@]);
    if let Some(d) = opts.depth {
        let ghost before = args.deep_view();
        let text = format_decimal(d as u64);
        let arg = cat("--depth=", text.as_str());
        args.push(arg);
        assert(args.deep_view() == before + seq!["--depth="@ + decimal_text(d as nat)]);
    } else {
        assert(args.deep_view() == args.deep_view() + Seq::<Seq<char>>::empty());
    }
    let ghost mid = args.deep_view();
    if let Some(f) = &opts.filter {
        let arg = cat("--filter=", f.as_str());
        args.push(arg);
        assert(args.deep_view() == mid + seq!["--filter="@ + f@]);
    } else {
        assert(args.deep_view() == mid + Seq::<Seq<char>>::empty());
    }
    let ghost late = args.deep_view();
    args.push(url.to_owned());
    args.push(target.to_owned());
    assert(args.deep_view() == late + seq![url@, target@]);
    args
}

/// Cloning a repository as a bare clone at `target`: the directory above
/// the target is created, a target that exists is refused, and `git clone
/// --bare` is run from the repository's clone URL.
pub open spec fn clone_bare_flow(
    id: RepoIdView,
    target: Seq<char>,
    opts: CloneOptionsView,
    replies: Replies,
    pos: int,
) -> Outcome<()> {
    let made = match parent(target) {
        Some(dir) => done_step(
            replies,
            pos,
            RequestView::MakeDirs(dir),
            ErrorKind::Filesystem,
            "failed to create directory: "@ + dir,
        ),
        None => Outcome::Done((), pos),
    };
    match made {
        Outcome::Done(_, p1) => match stat_step(replies, p1, target) {
            Outcome::Done(kind, p2) => if kind != PathKind::Missing {
                Outcome::Failed(
                    failure(ErrorKind::Precondition, "bare repo already exists: "@ + target),
                )
            } else {
                match git_checked_step(
                    replies,
                    p2,
                    clone_args(id.clone_url(), target, opts),
                    "failed to execute git clone for "@ + id.canonical(),
                    "git clone failed for "@ + id.canonical(),
                ) {
                    Outcome::Done(_, p3) => Outcome::Done((), p3),
                    Outcome::Ask(q) => Outcome::Ask(q),
                    Outcome::Failed(f) => Outcome::Failed(f),
                }
            },
            Outcome::Ask(q) => Outcome::Ask(q),
            Outcome::Failed(f) => Outcome::Failed(f),
        },
        Outcome::Ask(q) => Outcome::Ask(q),
        Outcome::Failed(f) => Outcome::Failed(f),
    }
}

/// Clones a repository as a bare clone.
pub fn clone_bare(
    repo_id: &RepoId,
    target: &str,
    opts: &CloneOptions,
    replies: &Vec<Reply>,
    pos: &mut usize,
) -> (r: Progress<()>)
    ensures
        agrees(
            r,
            *final(pos),
            clone_bare_flow(repo_id@, target@, opts@, replies.deep_view(), *old(pos) as int),
        ),
{
    if let Some(dir) = parent_of(target) {
        let context = cat("failed to create directory: ", dir.as_str());
        match ask_done(
            replies,
            pos,
            Request::MakeDirs(dir),
            ErrorKind::Filesystem,
            context.as_str(),
        ) {
            Progress::Done(_) => {},
            Progress::Ask(q) => {
                return Progress::Ask(q);
            },
            Progress::Failed(f) => {
                return Progress::Failed(f);
            },
        }
    }
    match ask_stat(replies, pos, target) {
        Progress::Done(kind) => {
            if kind != PathKind::Missing {
                return Progress::Failed(
                    Failure::new(ErrorKind::Precondition, cat("bare repo already exists: ", target)),
                );
            }
        },
        Progress::Ask(q) => {
            return Progress::Ask(q);
        },
        Progress::Failed(f) => {
            return Progress::Failed(f);
        },
    }
    let url = repo_id.to_clone_url();
    let name = repo_id.as_str();
    let context = cat("failed to execute git clone for ", name.as_str());
    let message = cat("git clone failed for ", name.as_str());
    match ask_git_checked(
        replies,
        pos,
        build_clone_args(url.as_str(), target, opts),
        context.as_str(),
        message.as_str(),
    ) {
        Progress::Done(_) => Progress::Done(()),
        Progress::Ask(q) => Progress::Ask(q),
        Progress::Failed(f) => Progress::Failed(f),
    }
}

/// Fetching all remotes of a bare clone and pruning what is gone there.
pub open spec fn fetch_bare_flow(path: Seq<char>, replies: Replies, pos: int) -> Outcome<()> {
    match git_checked_step(
        replies,
        pos,
        git_c(path, seq!["fetch"@, "--all"@, "--prune"@, "--quiet"@]),
        "failed to execute git fetch in "@ + path,
        "git fetch failed in "@ + path,
    ) {
        Outcome::Done(_, next) => Outcome::Done((), next),
        Outcome::Ask(q) => Outcome::Ask(q),
        Outcome::Failed(f) => Outcome::Failed(f),
    }
}

/// Fetches updates in a bare clone.
pub fn fetch_bare(path: &str, replies: &Vec<Reply>, pos: &mut usize) -> (r: Progress<()>)
    ensures
        agrees(r, *final(pos), fetch_bare_flow(path@, replies.deep_view(), *old(pos) as int)),
{
    let rest = vec!["fetch", "--all", "--prune", "--quiet"];
    assert(rest.deep_view() == seq!["fetch"@, "--all"@, "--prune"@, "--quiet"@]);
    let context = cat("failed to execute git fetch in ", path);
    let message = cat("git fetch failed in ", path);
    match ask_git_checked(replies, pos, git_args(path, rest), context.as_str(), message.as_str()) {
        Progress::Done(_) => Progress::Done(()),
        Progress::Ask(q) => Progress::Ask(q),
        Progress::Failed(f) => Progress::Failed(f),
    }
}

/// Whether a bare clone is a partial clone: its remote `origin` is marked
/// as a promisor.
pub open spec fn partial_clone_flow(path: Seq<char>, replies: Replies, pos: int) -> Outcome<bool> {
    match git_step(
        replies,
        pos,
        git_c(path, seq!["config"@, "--get"@, "remote.origin.promisor"@]),
        "failed to check partial clone status: "@ + path,
    ) {
        Outcome::Done(run, next) => Outcome::Done(
            run.success && trim(run.stdout) == "true"@,
            next,
        ),
        Outcome::Ask(q) => Outcome::Ask(q),
        Outcome::Failed(f) => Outcome::Failed(f),
    }
}

/// Checks whether a bare clone is a partial clone.
pub fn is_partial_clone(path: &str, replies: &Vec<Reply>, pos: &mut usize) -> (r: Progress<bool>)
    ensures
        agrees(r, *final(pos), partial_clone_flow(path@, replies.deep_view(), *old(pos) as int)),
{
    let rest = vec!["config", "--get", "remote.origin.promisor"];
    assert(rest.deep_view() == seq!["config"@, "--get"@, "remote.origin.promisor"@]);
    let context = cat("failed to check partial clone status: ", path);
    match ask_git(replies, pos, git_args(path, rest), context.as_str()) {
        Progress::Done(run) => {
            let value = trim_str(run.stdout.as_str());
            Progress::Done(run.success && str_eq(value.as_str(), "true"))
        },
        Progress::Ask(q) => Progress::Ask(q),
        Progress::Failed(f) => Progress::Failed(f),
    }
}

/// Turning a partial clone into a full one: the marks of the partial clone
/// are taken away as far as they are there, and everything is fetched
/// again.
pub open spec fn fetch_full_flow(path: Seq<char>, replies: Replies, pos: int) -> Outcome<()> {
    match git_try_step(
        replies,
        pos,
        git_c(path, seq!["config"@, "--unset"@, "remote.origin.promisor"@]),
    ) {
        Outcome::Done(_, p1) => match git_try_step(
            replies,
            p1,
            git_c(path, seq!["config"@, "--unset"@, "remote.origin.partialclonefilter"@]),
        ) {
            Outcome::Done(_, p2) => match git_checked_step(
                replies,
                p2,
                git_c(path, seq!["fetch"@, "--all"@, "--prune"@, "--refetch"@]),
                "failed to fetch full in "@ + path,
                "git fetch --refetch failed in "@ + path,
            ) {
                Outcome::Done(_, p3) => Outcome::Done((), p3),
                Outcome::Ask(q) => Outcome::Ask(q),
                Outcome::Failed(f) => Outcome::Failed(f),
            },
            Outcome::Ask(q) => Outcome::Ask(q),
            Outcome::Failed(f) => Outcome::Failed(f),
        },
        Outcome::Ask(q) => Outcome::Ask(q),
        Outcome::Failed(f) => Outcome::Failed(f),
    }
}

/// Converts a partial clone to a full clone and fetches all objects.
pub fn fetch_full(path: &str, replies: &Vec<Reply>, pos: &mut usize) -> (r: Progress<()>)
    ensures
        agrees(r, *final(pos), fetch_full_flow(path@, replies.deep_view(), *old(pos) as int)),
{
    let rest = vec!["config", "--unset", "remote.origin.promisor"];
    assert(rest.deep_view() == seq!["config"@, "--unset"@, "remote.origin.promisor"@]);
    match try_git(replies, pos, git_args(path, rest)) {
        Progress::Done(_) => {},
        Progress::Ask(q) => {
            return Progress::Ask(q);
        },
        Progress::Failed(f) => {
            return Progress::Failed(f);
        },
    }
    let rest = vec!["config", "--unset", "remote.origin.partialclonefilter"];
    assert(rest.deep_view() == seq!["config"@, "--unset"@, "remote.origin.partialclonefilter"@]);
    match try_git(replies, pos, git_args(path, rest)) {
        Progress::Done(_) => {},
        Progress::Ask(q) => {
            return Progress::Ask(q);
        },
        Progress::Failed(f) => {
            return Progress::Failed(f);
        },
    }
    let rest = vec!["fetch", "--all", "--prune", "--refetch"];
    assert(rest.deep_view() == seq!["fetch"@, "--all"@, "--prune"@, "--refetch"@]);
    let context = cat("failed to fetch full in ", path);
    let message = cat("git fetch --refetch failed in ", path);
    match ask_git_checked(replies, pos, git_args(path, rest), context.as_str(), message.as_str()) {
        Progress::Done(_) => Progress::Done(()),
        Progress::Ask(q) => Progress::Ask(q),
        Progress::Failed(f) => Progress::Failed(f),
    }
}

/// Collecting garbage in a bare clone: `git gc`, aggressive where asked.
pub open spec fn gc_flow(path: Seq<char>, aggressive: bool, replies: Replies, pos: int) -> Outcome<
    (),
> {
    let rest = if aggressive {
        seq!["gc"@, "--aggressive"@]
    } else {
        seq!["gc"@]
    };
    match git_checked_step(
        replies,
        pos,
        git_c(path, rest),
        "failed to run git gc in "@ + path,
        "git gc failed in "@ + path,
    ) {
        Outcome::Done(_, next) => Outcome::Done((), next),
        Outcome::Ask(q) => Outcome::Ask(q),
        Outcome::Failed(f) => Outcome::Failed(f),
    }
}

/// Runs garbage collection on a bare clone.
pub fn gc(path: &str, aggressive: bool, replies: &Vec<Reply>, pos: &mut usize) -> (r: Progress<()>)
    ensures
        agrees(r, *final(pos), gc_flow(path@, aggressive, replies.deep_view(), *old(pos) as int)),
{
    let rest = if aggressive {
        let rest = vec!["gc", "--aggressive"];
        assert(rest.deep_view() == seq!["gc"@, "--aggressive"@]);
        rest
    } else {
        let rest = vec!["gc"];
        assert(rest.deep_view() == seq!["gc"@]);
        rest
    };
    let context = cat("failed to run git gc in ", path);
    let message = cat("git gc failed in ", path);
    match ask_git_checked(replies, pos, git_args(path, rest), context.as_str(), message.as_str()) {
        Progress::Done(_) => Progress::Done(()),
        Progress::Ask(q) => Progress::Ask(q),
        Progress::Failed(f) => Progress::Failed(f),
    }
}

/// The local branch names followed by the names of the branches of
/// `origin` that are not among them yet, the prefix `origin/` taken off.
pub open spec fn merged_branches(local: Seq<Seq<char>>, remote: Seq<Seq<char>>) -> Seq<Seq<char>>
    decreases remote.len(),
{
    if remote.len() == 0 {
        local
    } else {
        let so_far = merged_branches(local, remote.drop_last());
        match after_prefix(remote.last(), "origin/"@) {
            Some(name) => if so_far.contains(name) {
                so_far
            } else {
                so_far.push(name)
            },
            None => so_far,
        }
    }
}

fn holds_name(names: &Vec<String>, name: &str) -> (r: bool)
    ensures
        r == names.deep_view().contains(name@),
{
    let mut i: usize = 0;
    while i < names.len()
        invariant
            i <= names.len(),
            forall|j: int| 0 <= j < i ==> names.deep_view()[j] != name@,
        decreases names.len() - i,
    {
        if str_eq(names[i].as_str(), name) {
            assert(names.deep_view()[i as int] == name@);
            return true;
        }
        i += 1;
    }
    false
}

/// Merges the local and the remote-tracking branch names of a repository
/// into one list without repetitions of remote names.
pub fn merge_branch_names(local: Vec<String>, remote: &Vec<String>) -> (out: Vec<String>)
    ensures
        out.deep_view() == merged_branches(local.deep_view(), remote.deep_view()),
{
    let ghost l = local.deep_view();
    let ghost r = remote.deep_view();
    let mut out = local;
    let prefix = to_chars("origin/");
    let mut i: usize = 0;
    assert(r.take(0) == Seq::<Seq<char>>::empty());
    while i < remote.len()
        invariant
            i <= remote.len(),
            r == remote.deep_view(),
            prefix@ == "origin/"@,
            out.deep_view() == merged_branches(l, r.take(i as int)),
        decreases remote.len() - i,
    {
        assert(r.take(i + 1).drop_last() == r.take(i as int));
        assert(r.take(i + 1).last() == remote[i as int]@);
        let name = to_chars(remote[i].as_str());
        if has_prefix(&name, &prefix) {
            let short = subvec(&name, prefix.len(), name.len());
            assert(short@ == name@.skip(prefix.len() as int));
            let short = from_chars(&short);
            if !holds_name(&out, short.as_str()) {
                let ghost before = out.deep_view();
                out.push(short);
                assert(out.deep_view() == before.push(short@));
            }
        }
        i += 1;
    }
    assert(r.take(r.len() as int) == r);
    out
}

/// The error context of a bare repository that cannot be opened.
pub open spec fn open_context(path: Seq<char>) -> Seq<char> {
    "failed to open bare repo: "@ + path
}

/// Listing the branches of a bare repository: its local branches and the
/// branches of `origin`.
pub open spec fn list_branches_flow(path: Seq<char>, replies: Replies, pos: int) -> Outcome<
    Seq<Seq<char>>,
> {
    match names_step(replies, pos, RequestView::Branches(path, false), open_context(path)) {
        Outcome::Done(local, p1) => match names_step(
            replies,
            p1,
            RequestView::Branches(path, true),
            open_context(path),
        ) {
            Outcome::Done(remote, p2) => Outcome::Done(merged_branches(local, remote), p2),
            Outcome::Ask(q) => Outcome::Ask(q),
            Outcome::Failed(f) => Outcome::Failed(f),
        },
        Outcome::Ask(q) => Outcome::Ask(q),
        Outcome::Failed(f) => Outcome::Failed(f),
    }
}

/// Lists the branches of a bare repository.
pub fn list_branches(path: &str, replies: &Vec<Reply>, pos: &mut usize) -> (r: Progress<Vec<String>>)
    ensures
        agrees(r, *final(pos), list_branches_flow(path@, replies.deep_view(), *old(pos) as int)),
{
    let context = cat("failed to open bare repo: ", path);
    let local = match ask_names(
        replies,
        pos,
        Request::Branches(path.to_owned(), false),
        context.as_str(),
    ) {
        Progress::Done(n) => n,
        Progress::Ask(q) => {
            return Progress::Ask(q);
        },
        Progress::Failed(f) => {
            return Progress::Failed(f);
        },
    };
    match ask_names(replies, pos, Request::Branches(path.to_owned(), true), context.as_str()) {
        Progress::Done(remote) => Progress::Done(merge_branch_names(local, &remote)),
        Progress::Ask(q) => Progress::Ask(q),
        Progress::Failed(f) => Progress::Failed(f),
    }
}

/// Whether a bare repository has a branch: as a local branch, or else as a
/// branch of `origin`.
pub open spec fn has_branch_flow(path: Seq<char>, branch: Seq<char>, replies: Replies, pos: int)
    -> Outcome<bool> {
    match flag_step(replies, pos, RequestView::FindBranch(path, branch, false), open_context(path)) {
        Outcome::Done(local, p1) => if local {
            Outcome::Done(true, p1)
        } else {
            flag_step(
                replies,
                p1,
                RequestView::FindBranch(path, "origin/"@ + branch, true),
                open_context(path),
            )
        },
        Outcome::Ask(q) => Outcome::Ask(q),
        Outcome::Failed(f) => Outcome::Failed(f),
    }
}

/// Checks whether a branch exists in a bare repository.
pub fn has_branch(path: &str, branch: &str, replies: &Vec<Reply>, pos: &mut usize) -> (r: Progress<
    bool,
>)
    ensures
        agrees(
            r,
            *final(pos),
            has_branch_flow(path@, branch@, replies.deep_view(), *old(pos) as int),
        ),
{
    let context = cat("failed to open bare repo: ", path);
    match ask_flag(
        replies,
        pos,
        Request::FindBranch(path.to_owned(), branch.to_owned(), false),
        context.as_str(),
    ) {
        Progress::Done(local) => {
            if local {
                return Progress::Done(true);
            }
        },
        Progress::Ask(q) => {
            return Progress::Ask(q);
        },
        Progress::Failed(f) => {
            return Progress::Failed(f);
        },
    }
    ask_flag(
        replies,
        pos,
        Request::FindBranch(path.to_owned(), cat("origin/", branch), true),
        context.as_str(),
    )
}

/// The branch that `HEAD` names, where `HEAD` is a symbolic reference to a
/// branch.
pub open spec fn head_branch(target: Option<Seq<char>>) -> Option<Seq<char>> {
    match target {
        Some(t) => after_prefix(t, "refs/heads/"@),
        None => None,
    }
}

/// The default branch of a bare repository: the branch that `HEAD` names;
/// else `main` where it exists, else `master` where it exists.
pub open spec fn default_branch_flow(path: Seq<char>, replies: Replies, pos: int) -> Outcome<
    Seq<char>,
> {
    match name_step(replies, pos, RequestView::HeadTarget(path), open_context(path)) {
        Outcome::Done(target, p1) => match head_branch(target) {
            Some(branch) => Outcome::Done(branch, p1),
            None => match has_branch_flow(path, "main"@, replies, p1) {
                Outcome::Done(has_main, p2) => if has_main {
                    Outcome::Done("main"@, p2)
                } else {
                    match has_branch_flow(path, "master"@, replies, p2) {
                        Outcome::Done(has_master, p3) => if has_master {
                            Outcome::Done("master"@, p3)
                        } else {
                            Outcome::Failed(
                                failure(
                                    ErrorKind::Git,
                                    "could not determine default branch for "@ + path,
                                ),
                            )
                        },
                        Outcome::Ask(q) => Outcome::Ask(q),
                        Outcome::Failed(f) => Outcome::Failed(f),
                    }
                },
                Outcome::Ask(q) => Outcome::Ask(q),
                Outcome::Failed(f) => Outcome::Failed(f),
            },
        },
        Outcome::Ask(q) => Outcome::Ask(q),
        Outcome::Failed(f) => Outcome::Failed(f),
    }
}

fn branch_of_head(target: &Option<String>) -> (r: Option<String>)
    ensures
        r.deep_view() == head_branch(target.deep_view()),
{
    match target {
        Some(t) => {
            let text = to_chars(t.as_str());
            let prefix = to_chars("refs/heads/");
            if has_prefix(&text, &prefix) {
                let name = subvec(&text, prefix.len(), text.len());
                assert(name@ == text@.skip(prefix.len() as int));
                Some(from_chars(&name))
            } else {
                None
            }
        },
        None => None,
    }
}

/// Finds the default branch of a bare repository.
pub fn get_default_branch(path: &str, replies: &Vec<Reply>, pos: &mut usize) -> (r: Progress<String>)
    ensures
        agrees(r, *final(pos), default_branch_flow(path@, replies.deep_view(), *old(pos) as int)),
{
    let context = cat("failed to open bare repo: ", path);
    let target = match ask_name(
        replies,
        pos,
        Request::HeadTarget(path.to_owned()),
        context.as_str(),
    ) {
        Progress::Done(t) => t,
        Progress::Ask(q) => {
            return Progress::Ask(q);
        },
        Progress::Failed(f) => {
            return Progress::Failed(f);
        },
    };
    if let Some(branch) = branch_of_head(&target) {
        return Progress::Done(branch);
    }
    match has_branch(path, "main", replies, pos) {
        Progress::Done(found) => {
            if found {
                return Progress::Done("main".to_owned());
            }
        },
        Progress::Ask(q) => {
            return Progress::Ask(q);
        },
        Progress::Failed(f) => {
            return Progress::Failed(f);
        },
    }
    match has_branch(path, "master", replies, pos) {
        Progress::Done(found) => {
            if found {
                return Progress::Done("master".to_owned());
            }
        },
        Progress::Ask(q) => {
            return Progress::Ask(q);
        },
        Progress::Failed(f) => {
            return Progress::Failed(f);
        },
    }
    Progress::Failed(
        Failure::new(ErrorKind::Git, cat("could not determine default branch for ", path)),
    )
}

} // verus!
