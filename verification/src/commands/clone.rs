//! `clone`: a workspace is cloned from its remote and brought to life.

use vstd::prelude::*;
use crate::commands::sync::{sync, sync_flow, SyncOptions};
use crate::failure::{failure, ErrorKind, Failure};
use crate::flow::{agrees, ask_git, git_step, Outcome, Progress, Replies, Reply};
use crate::output::{json_unsupported, Output, OutputFormat};
use crate::report::{say_status, say_success, status_say, success_say};
use crate::text::{cat, from_chars, has_suffix, ends_with, subvec, to_chars};
use crate::workspace::discovery::{load_from_flow, Workspace};

verus! {

/// What `clone` is asked to do.
#[derive(Debug)]
pub struct CloneOptions {
    /// The URL of the workspace's remote.
    pub url: String,
    /// The directory to clone into; the name of the repository where there
    /// is none.
    pub dir: Option<String>,
}

/// The value of a `CloneOptions`.
pub struct CloneOptionsView {
    pub url: Seq<char>,
    pub dir: Option<Seq<char>>,
}

impl View for CloneOptions {
    type V = CloneOptionsView;

    open spec fn view(&self) -> CloneOptionsView {
        CloneOptionsView { url: self.url@, dir: self.dir.deep_view() }
    }
}

/// The ending `.git`.
pub open spec fn git_suffix() -> Seq<char> {
    seq!['.', 'g', 'i', 't']
}

/// `s` without every `.git` at its end.
pub open spec fn without_git_suffix(s: Seq<char>) -> Seq<char>
    decreases s.len(),
{
    if ends_with(s, git_suffix()) {
        without_git_suffix(s.subrange(0, s.len() - 4))
    } else {
        s
    }
}

/// The part of `s` after its last slash or colon; all of `s` where it has
/// neither.
pub open spec fn last_segment(s: Seq<char>) -> Seq<char>
    decreases s.len(),
{
    if s.len() == 0 || s.last() == '/' || s.last() == ':' {
        Seq::<char>::empty()
    } else {
        last_segment(s.drop_last()).push(s.last())
    }
}

/// The name of the repository that a URL points at: the last segment of the
/// URL without `.git` at its end.
pub open spec fn repo_name(url: Seq<char>) -> Seq<char> {
    last_segment(without_git_suffix(url))
}

fn stem_has_suffix(text: &Vec<char>, end: usize, suffix: &Vec<char>) -> (r: bool)
    requires
        end <= text.len(),
    ensures
        r == ends_with(text@.subrange(0, end as int), suffix@),
{
    let head = subvec(text, 0, end);
    has_suffix(&head, suffix)
}

/// Reads the name of the repository off a clone URL, be it of the form
/// `git@host:path/repo.git` or `https://host/path/repo.git`.
pub fn extract_repo_name(url: &str) -> (name: String)
    ensures
        name@ == repo_name(url@),
{
    let text = to_chars(url);
    let suffix = to_chars(".git");
    proof {
        reveal_strlit(".git");
    }
    assert(suffix@ == git_suffix());
    let mut end: usize = text.len();
    assert(text@.subrange(0, end as int) == text@);
    while stem_has_suffix(&text, end, &suffix)
        invariant
            end <= text.len(),
            suffix@ == git_suffix(),
            without_git_suffix(text@) == without_git_suffix(text@.subrange(0, end as int)),
        decreases end,
    {
        let ghost head = text@.subrange(0, end as int);
        assert(head.subrange(0, head.len() - 4) == text@.subrange(0, end - 4));
        end -= 4;
    }
    let ghost stem = text@.subrange(0, end as int);
    assert(without_git_suffix(text@) == stem);
    let mut start: usize = end;
    assert(stem.subrange(0, end as int) == stem);
    assert(stem.subrange(end as int, end as int) == Seq::<char>::empty());
    while start > 0 && text[start - 1] != '/' && text[start - 1] != ':'
        invariant
            start <= end <= text.len(),
            stem == text@.subrange(0, end as int),
            last_segment(stem) == last_segment(stem.subrange(0, start as int)) + stem.subrange(
                start as int,
                end as int,
            ),
        decreases start,
    {
        let ghost before = stem.subrange(0, start as int);
        assert(before.last() == text@[start - 1]);
        assert(before.drop_last() == stem.subrange(0, start - 1));
        assert(seq![text@[start - 1]] + stem.subrange(start as int, end as int) == stem.subrange(
            start - 1,
            end as int,
        ));
        start -= 1;
    }
    let ghost before = stem.subrange(0, start as int);
    assert(last_segment(before) == Seq::<char>::empty()) by {
        if start > 0 {
            assert(before.last() == text@[start - 1]);
        }
    }
    let name = subvec(&text, start, end);
    assert(name@ == stem.subrange(start as int, end as int));
    from_chars(&name)
}

/// Cloning a workspace: the outer repository is cloned, the workspace in it
/// is loaded, and a sync brings it to life. The result is the sync state
/// after that sync.
pub open spec fn clone_flow(opts: CloneOptionsView, out: Output, replies: Replies, pos: int)
    -> Outcome<Option<Seq<char>>> {
    if out.format == OutputFormat::Json {
        Outcome::Failed(json_unsupported("clone"@))
    } else {
        let dir = match opts.dir {
            Some(d) => d,
            None => repo_name(opts.url),
        };
        match status_say(out, "Cloning workspace"@, opts.url, replies, pos) {
            Outcome::Done(_, p1) => match git_step(
                replies,
                p1,
                seq!["clone"@, opts.url, dir],
                "failed to run git clone"@,
            ) {
                Outcome::Done(run, p2) => if !run.success {
                    Outcome::Failed(failure(ErrorKind::Git, "git clone failed"@))
                } else {
                    match load_from_flow(dir, replies, p2) {
                        Outcome::Done(ws, p3) => match status_say(
                            out,
                            "Hydrating"@,
                            "cloning missing repos"@,
                            replies,
                            p3,
                        ) {
                            Outcome::Done(_, p4) => match sync_flow(
                                ws,
                                SyncOptions { dry_run: false, force: false, push: false },
                                out,
                                replies,
                                p4,
                            ) {
                                Outcome::Done(state, p5) => match success_say(
                                    out,
                                    "Cloned and hydrated workspace at "@ + dir,
                                    replies,
                                    p5,
                                ) {
                                    Outcome::Done(_, p6) => Outcome::Done(state, p6),
                                    Outcome::Ask(q) => Outcome::Ask(q),
                                    Outcome::Failed(f) => Outcome::Failed(f),
                                },
                                Outcome::Ask(q) => Outcome::Ask(q),
                                Outcome::Failed(f) => Outcome::Failed(f),
                            },
                            Outcome::Ask(q) => Outcome::Ask(q),
                            Outcome::Failed(f) => Outcome::Failed(f),
                        },
                        Outcome::Ask(q) => Outcome::Ask(q),
                        Outcome::Failed(f) => Outcome::Failed(f),
                    }
                },
                Outcome::Ask(q) => Outcome::Ask(q),
                Outcome::Failed(f) => Outcome::Failed(f),
            },
            Outcome::Ask(q) => Outcome::Ask(q),
            Outcome::Failed(f) => Outcome::Failed(f),
        }
    }
}

/// Clones a workspace and syncs it.
pub fn clone(opts: &CloneOptions, out: &Output, replies: &Vec<Reply>, pos: &mut usize) -> (r: Progress<
    crate::types::state::SyncState,
>)
    ensures
        agrees(r, *final(pos), clone_flow(opts@, *out, replies.deep_view(), *old(pos) as int)),
{
    if let Err(f) = out.require_human("clone") {
        return Progress::Failed(f);
    }
    let dir = match &opts.dir {
        Some(d) => d.clone(),
        None => extract_repo_name(opts.url.as_str()),
    };
    match say_status(out, "Cloning workspace", opts.url.as_str(), replies, pos) {
        Progress::Done(_) => {},
        Progress::Ask(q) => {
            return Progress::Ask(q);
        },
        Progress::Failed(f) => {
            return Progress::Failed(f);
        },
    }
    let mut args: Vec<String> = Vec::new();
    args.push("clone".to_owned());
    args.push(opts.url.clone());
    args.push(dir.clone());
    assert(args.deep_view() == seq!["clone"@, opts@.url, dir@]);
    match ask_git(replies, pos, args, "failed to run git clone") {
        Progress::Done(run) => {
            if !run.success {
                return Progress::Failed(
                    Failure::new(ErrorKind::Git, "git clone failed".to_owned()),
                );
            }
        },
        Progress::Ask(q) => {
            return Progress::Ask(q);
        },
        Progress::Failed(f) => {
            return Progress::Failed(f);
        },
    }
    let ws = match Workspace::load_from(dir.clone(), replies, pos) {
        Progress::Done(w) => w,
        Progress::Ask(q) => {
            return Progress::Ask(q);
        },
        Progress::Failed(f) => {
            return Progress::Failed(f);
        },
    };
    match say_status(out, "Hydrating", "cloning missing repos", replies, pos) {
        Progress::Done(_) => {},
        Progress::Ask(q) => {
            return Progress::Ask(q);
        },
        Progress::Failed(f) => {
            return Progress::Failed(f);
        },
    }
    let sync_opts = SyncOptions { dry_run: false, force: false, push: false };
    let state = match sync(&ws, &sync_opts, out, replies, pos) {
        Progress::Done(s) => s,
        Progress::Ask(q) => {
            return Progress::Ask(q);
        },
        Progress::Failed(f) => {
            return Progress::Failed(f);
        },
    };
    let message = cat("Cloned and hydrated workspace at ", dir.as_str());
    match say_success(out, message.as_str(), replies, pos) {
        Progress::Done(_) => Progress::Done(state),
        Progress::Ask(q) => Progress::Ask(q),
        Progress::Failed(f) => Progress::Failed(f),
    }
}

} // verus!
