//! `init`: a directory becomes a workspace.

use vstd::prelude::*;
use crate::failure::{failure, ErrorKind, Failure};
use crate::flow::{
    agrees, ask_git, ask_path, git_step, path_step, Outcome, Progress, Replies, Reply, Request,
    RequestView,
};
use crate::git::shell::{git_args, git_c};
use crate::output::{json_unsupported, Output, OutputFormat};
use crate::report::{info_say, say_info, say_success, success_say};
use crate::text::cat;
use crate::workspace::discovery::{init_flow, is_git_repo_flow, Workspace};

verus! {

/// What `init` is asked to do.
#[derive(Debug)]
pub struct InitOptions {
    /// The directory to initialise; the current directory where there is
    /// none.
    pub path: Option<String>,
    /// Replace the state of a workspace that is there.
    pub force: bool,
    /// Do not make the directory a Git repository; fail if it is none.
    pub no_git: bool,
}

/// The value of a `InitOptions`.
pub struct InitOptionsView {
    pub path: Option<Seq<char>>,
    pub force: bool,
    pub no_git: bool,
}

impl View for InitOptions {
    type V = InitOptionsView;

    open spec fn view(&self) -> InitOptionsView {
        InitOptionsView { path: self.path.deep_view(), force: self.force, no_git: self.no_git }
    }
}

/// The directory that `init` works on: the path that was given, or the
/// current directory, or `.` where that is not known; made canonical where
/// it can be.
pub open spec fn init_target_flow(path: Option<Seq<char>>, replies: Replies, pos: int) -> Outcome<
    Seq<char>,
> {
    let named = match path {
        Some(p) => Outcome::Done(p, pos),
        None => match path_step(replies, pos, RequestView::CurrentDir) {
            Outcome::Done(Some(cwd), next) => Outcome::Done(cwd, next),
            Outcome::Done(None, next) => Outcome::Done("."@, next),
            Outcome::Ask(q) => Outcome::Ask(q),
            Outcome::Failed(f) => Outcome::Failed(f),
        },
    };
    match named {
        Outcome::Done(target, p1) => match path_step(replies, p1, RequestView::Canonical(target)) {
            Outcome::Done(Some(c), p2) => Outcome::Done(c, p2),
            Outcome::Done(None, p2) => Outcome::Done(target, p2),
            Outcome::Ask(q) => Outcome::Ask(q),
            Outcome::Failed(f) => Outcome::Failed(f),
        },
        Outcome::Ask(q) => Outcome::Ask(q),
        Outcome::Failed(f) => Outcome::Failed(f),
    }
}

fn init_target(path: &Option<String>, replies: &Vec<Reply>, pos: &mut usize) -> (r: Progress<String>)
    ensures
        agrees(
            r,
            *final(pos),
            init_target_flow(path.deep_view(), replies.deep_view(), *old(pos) as int),
        ),
{
    let target = match path {
        Some(p) => p.clone(),
        None => match ask_path(replies, pos, Request::CurrentDir) {
            Progress::Done(Some(cwd)) => cwd,
            Progress::Done(None) => ".".to_owned(),
            Progress::Ask(q) => {
                return Progress::Ask(q);
            },
            Progress::Failed(f) => {
                return Progress::Failed(f);
            },
        },
    };
    match ask_path(replies, pos, Request::Canonical(target.clone())) {
        Progress::Done(Some(c)) => Progress::Done(c),
        Progress::Done(None) => Progress::Done(target),
        Progress::Ask(q) => Progress::Ask(q),
        Progress::Failed(f) => Progress::Failed(f),
    }
}

/// Making sure that the target is a Git repository: one that is none is
/// initialised, unless that was ruled out.
pub open spec fn init_git_flow(
    out: Output,
    target: Seq<char>,
    no_git: bool,
    replies: Replies,
    pos: int,
) -> Outcome<()> {
    match is_git_repo_flow(target, replies, pos) {
        Outcome::Done(is_repo, p1) => if is_repo {
            Outcome::Done((), p1)
        } else if no_git {
            Outcome::Failed(
                failure(
                    ErrorKind::Precondition,
                    target + " is not a git repository. Remove --no-git to initialize one."@,
                ),
            )
        } else {
            match info_say(out, "Initializing git repository at "@ + target, replies, p1) {
                Outcome::Done(_, p2) => match git_step(
                    replies,
                    p2,
                    git_c(target, seq!["init"@]),
                    "failed to run git init"@,
                ) {
                    Outcome::Done(run, p3) => if run.success {
                        Outcome::Done((), p3)
                    } else {
                        Outcome::Failed(failure(ErrorKind::Git, "git init failed"@))
                    },
                    Outcome::Ask(q) => Outcome::Ask(q),
                    Outcome::Failed(f) => Outcome::Failed(f),
                },
                Outcome::Ask(q) => Outcome::Ask(q),
                Outcome::Failed(f) => Outcome::Failed(f),
            }
        },
        Outcome::Ask(q) => Outcome::Ask(q),
        Outcome::Failed(f) => Outcome::Failed(f),
    }
}

fn init_git(out: &Output, target: &str, no_git: bool, replies: &Vec<Reply>, pos: &mut usize) -> (r:
    Progress<()>)
    ensures
        agrees(
            r,
            *final(pos),
            init_git_flow(*out, target@, no_git, replies.deep_view(), *old(pos) as int),
        ),
{
    match Workspace::is_git_repo(target, replies, pos) {
        Progress::Done(is_repo) => {
            if is_repo {
                return Progress::Done(());
            }
        },
        Progress::Ask(q) => {
            return Progress::Ask(q);
        },
        Progress::Failed(f) => {
            return Progress::Failed(f);
        },
    }
    if no_git {
        return Progress::Failed(
            Failure::new(
                ErrorKind::Precondition,
                cat(target, " is not a git repository. Remove --no-git to initialize one."),
            ),
        );
    }
    let note = cat("Initializing git repository at ", target);
    match say_info(out, note.as_str(), replies, pos) {
        Progress::Done(_) => {},
        Progress::Ask(q) => {
            return Progress::Ask(q);
        },
        Progress::Failed(f) => {
            return Progress::Failed(f);
        },
    }
    let rest = vec!["init"];
    assert(rest.deep_view() == seq!["init"@]);
    match ask_git(replies, pos, git_args(target, rest), "failed to run git init") {
        Progress::Done(run) => if run.success {
            Progress::Done(())
        } else {
            Progress::Failed(Failure::new(ErrorKind::Git, "git init failed".to_owned()))
        },
        Progress::Ask(q) => Progress::Ask(q),
        Progress::Failed(f) => Progress::Failed(f),
    }
}

/// What `init` says when it is done.
pub open spec fn init_report_flow(out: Output, target: Seq<char>, replies: Replies, pos: int)
    -> Outcome<()> {
    match success_say(out, "Initialized wald workspace at "@ + target, replies, pos) {
        Outcome::Done(_, p1) => match info_say(out, ""@, replies, p1) {
            Outcome::Done(_, p2) => match info_say(out, "Next steps:"@, replies, p2) {
                Outcome::Done(_, p3) => match info_say(
                    out,
                    "  1. Add repositories: wald repo add github.com/user/repo"@,
                    replies,
                    p3,
                ) {
                    Outcome::Done(_, p4) => info_say(
                        out,
                        "  2. Create a baum:    wald plant <repo> <container> <branch>"@,
                        replies,
                        p4,
                    ),
                    Outcome::Ask(q) => Outcome::Ask(q),
                    Outcome::Failed(f) => Outcome::Failed(f),
                },
                Outcome::Ask(q) => Outcome::Ask(q),
                Outcome::Failed(f) => Outcome::Failed(f),
            },
            Outcome::Ask(q) => Outcome::Ask(q),
            Outcome::Failed(f) => Outcome::Failed(f),
        },
        Outcome::Ask(q) => Outcome::Ask(q),
        Outcome::Failed(f) => Outcome::Failed(f),
    }
}

fn init_report(out: &Output, target: &str, replies: &Vec<Reply>, pos: &mut usize) -> (r: Progress<()>)
    ensures
        agrees(
            r,
            *final(pos),
            init_report_flow(*out, target@, replies.deep_view(), *old(pos) as int),
        ),
{
    let message = cat("Initialized wald workspace at ", target);
    match say_success(out, message.as_str(), replies, pos) {
        Progress::Done(_) => {},
        Progress::Ask(q) => {
            return Progress::Ask(q);
        },
        Progress::Failed(f) => {
            return Progress::Failed(f);
        },
    }
    match say_info(out, "", replies, pos) {
        Progress::Done(_) => {},
        Progress::Ask(q) => {
            return Progress::Ask(q);
        },
        Progress::Failed(f) => {
            return Progress::Failed(f);
        },
    }
    match say_info(out, "Next steps:", replies, pos) {
        Progress::Done(_) => {},
        Progress::Ask(q) => {
            return Progress::Ask(q);
        },
        Progress::Failed(f) => {
            return Progress::Failed(f);
        },
    }
    match say_info(
        out,
        "  1. Add repositories: wald repo add github.com/user/repo",
        replies,
        pos,
    ) {
        Progress::Done(_) => {},
        Progress::Ask(q) => {
            return Progress::Ask(q);
        },
        Progress::Failed(f) => {
            return Progress::Failed(f);
        },
    }
    say_info(out, "  2. Create a baum:    wald plant <repo> <container> <branch>", replies, pos)
}

/// Initialising a workspace: the target is settled and made a Git
/// repository where it is none, and the state of a workspace is written
/// into it.
pub open spec fn init_command_flow(
    opts: InitOptionsView,
    out: Output,
    replies: Replies,
    pos: int,
) -> Outcome<()> {
    if out.format == OutputFormat::Json {
        Outcome::Failed(json_unsupported("init"@))
    } else {
        match init_target_flow(opts.path, replies, pos) {
            Outcome::Done(target, p1) => match init_git_flow(out, target, opts.no_git, replies, p1) {
                Outcome::Done(_, p2) => match init_flow(target, opts.force, replies, p2) {
                    Outcome::Done(_, p3) => init_report_flow(out, target, replies, p3),
                    Outcome::Ask(q) => Outcome::Ask(q),
                    Outcome::Failed(f) => Outcome::Failed(f),
                },
                Outcome::Ask(q) => Outcome::Ask(q),
                Outcome::Failed(f) => Outcome::Failed(f),
            },
            Outcome::Ask(q) => Outcome::Ask(q),
            Outcome::Failed(f) => Outcome::Failed(f),
        }
    }
}

/// Initialises a new workspace.
pub fn init(opts: &InitOptions, out: &Output, replies: &Vec<Reply>, pos: &mut usize) -> (r: Progress<
    (),
>)
    ensures
        agrees(r, *final(pos), init_command_flow(opts@, *out, replies.deep_view(), *old(pos) as int)),
{
    if let Err(f) = out.require_human("init") {
        return Progress::Failed(f);
    }
    let target = match init_target(&opts.path, replies, pos) {
        Progress::Done(t) => t,
        Progress::Ask(q) => {
            return Progress::Ask(q);
        },
        Progress::Failed(f) => {
            return Progress::Failed(f);
        },
    };
    match init_git(out, target.as_str(), opts.no_git, replies, pos) {
        Progress::Done(_) => {},
        Progress::Ask(q) => {
            return Progress::Ask(q);
        },
        Progress::Failed(f) => {
            return Progress::Failed(f);
        },
    }
    match Workspace::init(target.as_str(), opts.force, replies, pos) {
        Progress::Done(_) => {},
        Progress::Ask(q) => {
            return Progress::Ask(q);
        },
        Progress::Failed(f) => {
            return Progress::Failed(f);
        },
    }
    init_report(out, target.as_str(), replies, pos)
}

} // verus!
