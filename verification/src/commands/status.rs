//! `status`: the state of the workspace at a glance.

use vstd::prelude::*;
use crate::decimal::{decimal_text, format_decimal, parse_decimal, parse_unsigned};
use crate::flow::{
    agrees, ask_git, exchange, git_step, reply_at, try_ask, try_load_baum, try_load_baum_step,
    try_step, Loaded, LoadedView, Outcome, Progress, Replies, Reply, ReplyView, Request,
    RequestView,
};
use crate::git::shell::{git_args, git_c, GitOutput, GitOutputView};
use crate::output::{Output, OutputFormat};
use crate::report::{print_say, say_print};
use crate::split::{clone_opt, split, split_chars, trim, trim_chars, trim_str};
use crate::text::{cat, cat3, cat5, from_chars, subvec, to_chars};
use crate::workspace::discovery::{
    containers_step, find_containers, Workspace, WorkspaceView,
};

verus! {

broadcast use crate::text::lemma_deep_view_chars;

/// The status of a workspace.
#[derive(Debug, PartialEq, Eq)]
pub struct StatusReport {
    /// Whether the outer repository has no uncommitted changes.
    pub clean: bool,
    /// How many commits the workspace is ahead of its remote.
    pub ahead: u32,
    /// How many commits it is behind.
    pub behind: u32,
    /// The commit of the last sync.
    pub last_sync: Option<String>,
    /// How many repositories are registered.
    pub repos_count: usize,
    /// How many baums are planted.
    pub baums_count: usize,
    /// How many worktrees they hold.
    pub worktrees_count: u64,
}

/// The value of a `StatusReport`.
pub struct StatusReportView {
    pub clean: bool,
    pub ahead: u32,
    pub behind: u32,
    pub last_sync: Option<Seq<char>>,
    pub repos_count: usize,
    pub baums_count: usize,
    pub worktrees_count: u64,
}

impl View for StatusReport {
    type V = StatusReportView;

    open spec fn view(&self) -> StatusReportView {
        StatusReportView {
            clean: self.clean,
            ahead: self.ahead,
            behind: self.behind,
            last_sync: self.last_sync.deep_view(),
            repos_count: self.repos_count,
            baums_count: self.baums_count,
            worktrees_count: self.worktrees_count,
        }
    }
}

impl DeepView for StatusReport {
    type V = StatusReportView;

    open spec fn deep_view(&self) -> StatusReportView {
        self@
    }
}

impl Clone for StatusReport {
    fn clone(&self) -> (r: Self)
        ensures
            r@ == self@,
    {
        StatusReport {
            clean: self.clean,
            ahead: self.ahead,
            behind: self.behind,
            last_sync: clone_opt(&self.last_sync),
            repos_count: self.repos_count,
            baums_count: self.baums_count,
            worktrees_count: self.worktrees_count,
        }
    }
}

/// A count as `git rev-list --count` prints it; zero where it cannot be
/// read.
pub open spec fn count_or_zero(field: Seq<char>) -> u32 {
    match parse_unsigned(field, 0xffff_ffff) {
        Some(n) => n as u32,
        None => 0,
    }
}

/// How far ahead and behind the workspace is, as `git rev-list --left-right
/// --count` reports it: two counts separated by a tab. Anything else counts
/// as level.
pub open spec fn ahead_behind(run: Option<GitOutputView>) -> (u32, u32) {
    match run {
        Some(out) => {
            let fields = split(trim(out.stdout), '\t');
            if out.success && fields.len() == 2 {
                (count_or_zero(fields[0]), count_or_zero(fields[1]))
            } else {
                (0, 0)
            }
        },
        None => (0, 0),
    }
}

fn read_count(field: &Vec<char>) -> (n: u32)
    ensures
        n == count_or_zero(field@),
{
    match parse_decimal(field, 0xffff_ffff) {
        Some(n) => n as u32,
        None => 0,
    }
}

/// Reads how far ahead and behind the workspace is.
pub fn parse_ahead_behind(run: Option<&GitOutput>) -> (r: (u32, u32))
    ensures
        r == ahead_behind(run.deep_view()),
{
    match run {
        Some(out) => {
            if !out.success {
                return (0, 0);
            }
            let text = to_chars(out.stdout.as_str());
            let t = trim_chars(&text);
            let fields = split_chars(&t, '\t');
            if fields.len() != 2 {
                return (0, 0);
            }
            assert(fields.deep_view()[0] == fields[0]@);
            assert(fields.deep_view()[1] == fields[1]@);
            (read_count(&fields[0]), read_count(&fields[1]))
        },
        None => (0, 0),
    }
}

/// The line that says how the workspace stands to its remote.
pub open spec fn sync_line(ahead: u32, behind: u32) -> Seq<char> {
    if ahead == 0 && behind == 0 {
        "Sync: up to date"@
    } else if behind == 0 {
        "Sync: "@ + decimal_text(ahead as nat) + " commit(s) ahead of remote"@
    } else if ahead == 0 {
        "Sync: "@ + decimal_text(behind as nat) + " commit(s) behind remote"@
    } else {
        "Sync: diverged ("@ + decimal_text(ahead as nat) + " ahead, "@ + decimal_text(
            behind as nat,
        ) + " behind)"@
    }
}

/// The first eight characters of a commit, or all of it where it is
/// shorter.
pub open spec fn short_commit(commit: Seq<char>) -> Seq<char> {
    if commit.len() <= 8 {
        commit
    } else {
        commit.subrange(0, 8)
    }
}

/// The lines of the status, for a human reader.
pub open spec fn status_lines(report: StatusReportView) -> Seq<Seq<char>> {
    seq![
        if report.clean {
            "Workspace: clean"@
        } else {
            "Workspace: has uncommitted changes"@
        },
        sync_line(report.ahead, report.behind),
        match report.last_sync {
            Some(commit) => "Last sync: "@ + short_commit(commit),
            None => "Last sync: never"@,
        },
        "Repos: "@ + decimal_text(report.repos_count as nat) + " registered"@,
        "Baums: "@ + decimal_text(report.baums_count as nat) + " planted ("@ + decimal_text(
            report.worktrees_count as nat,
        ) + " worktrees)"@,
    ]
}

/// Formats the status for a human reader.
pub fn format_status(report: &StatusReport) -> (lines: Vec<String>)
    ensures
        lines.deep_view() == status_lines(report@),
{
    let mut lines: Vec<String> = Vec::new();
    lines.push(
        if report.clean {
            "Workspace: clean".to_owned()
        } else {
            "Workspace: has uncommitted changes".to_owned()
        },
    );
    let ahead = format_decimal(report.ahead as u64);
    let behind = format_decimal(report.behind as u64);
    lines.push(
        if report.ahead == 0 && report.behind == 0 {
            "Sync: up to date".to_owned()
        } else if report.behind == 0 {
            cat3("Sync: ", ahead.as_str(), " commit(s) ahead of remote")
        } else if report.ahead == 0 {
            cat3("Sync: ", behind.as_str(), " commit(s) behind remote")
        } else {
            cat5("Sync: diverged (", ahead.as_str(), " ahead, ", behind.as_str(), " behind)")
        },
    );
    lines.push(
        match &report.last_sync {
            Some(commit) => {
                let text = to_chars(commit.as_str());
                let short = if text.len() <= 8 {
                    assert(text@.subrange(0, text.len() as int) == text@);
                    subvec(&text, 0, text.len())
                } else {
                    subvec(&text, 0, 8)
                };
                let short = from_chars(&short);
                cat("Last sync: ", short.as_str())
            },
            None => "Last sync: never".to_owned(),
        },
    );
    let repos = format_decimal(report.repos_count as u64);
    lines.push(cat3("Repos: ", repos.as_str(), " registered"));
    let baums = format_decimal(report.baums_count as u64);
    let worktrees = format_decimal(report.worktrees_count);
    lines.push(cat5("Baums: ", baums.as_str(), " planted (", worktrees.as_str(), " worktrees)"));
    assert(lines.deep_view() == status_lines(report@));
    lines
}

/// `n` more than `count`, as far as the count has room.
pub open spec fn capped_sum(count: u64, n: nat) -> u64 {
    if count + n <= u64::MAX {
        (count + n) as u64
    } else {
        u64::MAX
    }
}

/// The worktrees of the baums in the containers from index `from` on,
/// counted on top of `count`. A baum whose descriptor cannot be read counts
/// for none.
pub open spec fn count_worktrees_flow(
    containers: Seq<Seq<char>>,
    from: int,
    count: u64,
    replies: Replies,
    pos: int,
) -> Outcome<u64>
    decreases containers.len() - from,
{
    if from < 0 || from >= containers.len() {
        Outcome::Done(count, pos)
    } else {
        match try_load_baum_step(replies, pos, containers[from]) {
            Outcome::Done(LoadedView::Value(baum), next) => count_worktrees_flow(
                containers,
                from + 1,
                capped_sum(count, baum.worktrees.len()),
                replies,
                next,
            ),
            Outcome::Done(LoadedView::Broken(_), next) => count_worktrees_flow(
                containers,
                from + 1,
                count,
                replies,
                next,
            ),
            Outcome::Ask(q) => Outcome::Ask(q),
            Outcome::Failed(f) => Outcome::Failed(f),
        }
    }
}

fn count_worktrees(containers: &Vec<String>, replies: &Vec<Reply>, pos: &mut usize) -> (r: Progress<
    u64,
>)
    ensures
        agrees(
            r,
            *final(pos),
            count_worktrees_flow(
                containers.deep_view(),
                0,
                0,
                replies.deep_view(),
                *old(pos) as int,
            ),
        ),
{
    let mut count: u64 = 0;
    let mut i: usize = 0;
    let ghost begin = *pos as int;
    while i < containers.len()
        invariant
            i <= containers.len(),
            begin == *old(pos) as int,
            count_worktrees_flow(containers.deep_view(), 0, 0, replies.deep_view(), begin)
                == count_worktrees_flow(
                containers.deep_view(),
                i as int,
                count,
                replies.deep_view(),
                *pos as int,
            ),
        decreases containers.len() - i,
    {
        assert(containers.deep_view()[i as int] == containers[i as int]@);
        match try_load_baum(replies, pos, containers[i].as_str()) {
            Progress::Done(Loaded::Value(baum)) => {
                let n = baum.worktrees.len() as u64;
                count = if n <= u64::MAX - count {
                    count + n
                } else {
                    u64::MAX
                };
            },
            Progress::Done(Loaded::Broken(_)) => {},
            Progress::Ask(q) => {
                return Progress::Ask(q);
            },
            Progress::Failed(f) => {
                return Progress::Failed(f);
            },
        }
        i += 1;
    }
    Progress::Done(count)
}

/// A run of `git` that may fail to start: its outcome where it ran.
pub open spec fn git_maybe_step(replies: Replies, pos: int, args: Seq<Seq<char>>) -> Outcome<
    Option<GitOutputView>,
> {
    match reply_at(replies, pos) {
        None => Outcome::Ask(RequestView::Git(args)),
        Some(ReplyView::Git(run)) => Outcome::Done(Some(run), pos + 1),
        Some(_) => Outcome::Done(None, pos + 1),
    }
}

/// Printing lines on the standard output, from index `from` on.
pub open spec fn print_lines_flow(lines: Seq<Seq<char>>, from: int, replies: Replies, pos: int)
    -> Outcome<()>
    decreases lines.len() - from,
{
    if from < 0 || from >= lines.len() {
        Outcome::Done((), pos)
    } else {
        match print_say(lines[from], replies, pos) {
            Outcome::Done(_, next) => print_lines_flow(lines, from + 1, replies, next),
            Outcome::Ask(q) => Outcome::Ask(q),
            Outcome::Failed(f) => Outcome::Failed(f),
        }
    }
}

/// Prints lines on the standard output.
pub fn print_lines(lines: &Vec<String>, replies: &Vec<Reply>, pos: &mut usize) -> (r: Progress<()>)
    ensures
        agrees(
            r,
            *final(pos),
            print_lines_flow(lines.deep_view(), 0, replies.deep_view(), *old(pos) as int),
        ),
{
    let mut i: usize = 0;
    let ghost begin = *pos as int;
    while i < lines.len()
        invariant
            i <= lines.len(),
            begin == *old(pos) as int,
            print_lines_flow(lines.deep_view(), 0, replies.deep_view(), begin) == print_lines_flow(
                lines.deep_view(),
                i as int,
                replies.deep_view(),
                *pos as int,
            ),
        decreases lines.len() - i,
    {
        assert(lines.deep_view()[i as int] == lines[i as int]@);
        match say_print(lines[i].clone(), replies, pos) {
            Progress::Done(_) => {},
            Progress::Ask(q) => {
                return Progress::Ask(q);
            },
            Progress::Failed(f) => {
                return Progress::Failed(f);
            },
        }
        i += 1;
    }
    Progress::Done(())
}

/// Showing the status of the workspace: whether it is clean, how it stands
/// to its remote, when it was last synced, and how much it holds. The
/// result is the report that was shown.
pub open spec fn status_flow(ws: WorkspaceView, out: Output, replies: Replies, pos: int) -> Outcome<
    StatusReportView,
> {
    match git_step(
        replies,
        pos,
        git_c(ws.root, seq!["status"@, "--porcelain"@]),
        "failed to check git status"@,
    ) {
        Outcome::Done(changes, p1) => match git_maybe_step(
            replies,
            p1,
            git_c(
                ws.root,
                seq!["rev-list"@, "--left-right"@, "--count"@, "HEAD...@{upstream}"@],
            ),
        ) {
            Outcome::Done(counts, p2) => match containers_step(replies, p2, ws.root) {
                Outcome::Done(containers, p3) => match count_worktrees_flow(
                    containers,
                    0,
                    0,
                    replies,
                    p3,
                ) {
                    Outcome::Done(worktrees, p4) => {
                        let report = StatusReportView {
                            clean: trim(changes.stdout).len() == 0,
                            ahead: ahead_behind(counts).0,
                            behind: ahead_behind(counts).1,
                            last_sync: ws.state,
                            repos_count: ws.manifest.len() as usize,
                            baums_count: containers.len() as usize,
                            worktrees_count: worktrees,
                        };
                        let shown = if out.format == OutputFormat::Json {
                            try_step(replies, p4, RequestView::PrintStatus(report))
                        } else {
                            print_lines_flow(status_lines(report), 0, replies, p4)
                        };
                        match shown {
                            Outcome::Done(_, p5) => Outcome::Done(report, p5),
                            Outcome::Ask(q) => Outcome::Ask(q),
                            Outcome::Failed(f) => Outcome::Failed(f),
                        }
                    },
                    Outcome::Ask(q) => Outcome::Ask(q),
                    Outcome::Failed(f) => Outcome::Failed(f),
                },
                Outcome::Ask(q) => Outcome::Ask(q),
                Outcome::Failed(f) => Outcome::Failed(f),
            },
            Outcome::Ask(q) => Outcome::Ask(q),
            Outcome::Failed(f) => Outcome::Failed(f),
        },
        Outcome::Ask(q) => Outcome::Ask(q),
        Outcome::Failed(f) => Outcome::Failed(f),
    }
}

/// Shows the status of the workspace.
pub fn status(ws: &Workspace, out: &Output, replies: &Vec<Reply>, pos: &mut usize) -> (r: Progress<
    StatusReport,
>)
    ensures
        agrees(r, *final(pos), status_flow(ws@, *out, replies.deep_view(), *old(pos) as int)),
{
    let rest = vec!["status", "--porcelain"];
    assert(rest.deep_view() == seq!["status"@, "--porcelain"@]);
    let clean = match ask_git(
        replies,
        pos,
        git_args(ws.root.as_str(), rest),
        "failed to check git status",
    ) {
        Progress::Done(run) => {
            let t = trim_str(run.stdout.as_str());
            t.as_str().unicode_len() == 0
        },
        Progress::Ask(q) => {
            return Progress::Ask(q);
        },
        Progress::Failed(f) => {
            return Progress::Failed(f);
        },
    };
    let rest = vec!["rev-list", "--left-right", "--count", "HEAD...@{upstream}"];
    assert(rest.deep_view() == seq![
        "rev-list"@,
        "--left-right"@,
        "--count"@,
        "HEAD...@{upstream}"@,
    ]);
    let (ahead, behind) = match exchange(
        replies,
        pos,
        Request::Git(git_args(ws.root.as_str(), rest)),
    ) {
        Err(q) => {
            return Progress::Ask(q);
        },
        Ok(Reply::Git(run)) => parse_ahead_behind(Some(run)),
        Ok(_) => parse_ahead_behind(None),
    };
    let containers = match find_containers(ws.root.as_str(), replies, pos) {
        Progress::Done(c) => c,
        Progress::Ask(q) => {
            return Progress::Ask(q);
        },
        Progress::Failed(f) => {
            return Progress::Failed(f);
        },
    };
    let worktrees = match count_worktrees(&containers, replies, pos) {
        Progress::Done(n) => n,
        Progress::Ask(q) => {
            return Progress::Ask(q);
        },
        Progress::Failed(f) => {
            return Progress::Failed(f);
        },
    };
    let report = StatusReport {
        clean,
        ahead,
        behind,
        last_sync: clone_opt(&ws.state.last_sync),
        repos_count: ws.manifest.repos.len(),
        baums_count: containers.len(),
        worktrees_count: worktrees,
    };
    let shown = match out.format {
        OutputFormat::Json => try_ask(replies, pos, Request::PrintStatus(report.clone())),
        OutputFormat::Human => {
            let lines = format_status(&report);
            print_lines(&lines, replies, pos)
        },
    };
    match shown {
        Progress::Done(_) => Progress::Done(report),
        Progress::Ask(q) => Progress::Ask(q),
        Progress::Failed(f) => Progress::Failed(f),
    }
}

} // verus!
