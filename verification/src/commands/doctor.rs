//! `doctor`: the workspace is checked for what does not fit together, and
//! repaired where that is asked for and possible.

use vstd::prelude::*;
use crate::decimal::{decimal_text, format_decimal};
use crate::flow::{
    agrees, ask_path, ask_stat, exchange, path_step, reply_at, stat_step, try_load_baum,
    try_load_baum_step, Loaded, LoadedView, Outcome, PathKind, Progress, Replies, Reply,
    ReplyView, Request, RequestView,
};
use crate::git::shell::{git_args, git_c, stderr_message, with_stderr};
use crate::git::worktree::{
    parse_worktree_list, parsed_worktrees, WorktreeInfo, WorktreeInfoView,
};
use crate::output::{json_unsupported, Output, OutputFormat};
use crate::paths::{join_path, joined, same_path, same_place};
use crate::report::{print_say, say_print, say_status, say_success, status_say, success_say};
use crate::text::{cat, cat3, cat4, cat5, str_eq};
use crate::types::manifest::{has_key, WorktreeEntry, WorktreeEntryView};
use crate::workspace::discovery::{
    containers_step, find_containers, Workspace, WorkspaceView,
};

verus! {

/// What `doctor` is asked to do.
#[derive(Debug, Clone, Copy, PartialEq, Eq, Structural)]
pub struct DoctorOptions {
    /// Repair what can be repaired.
    pub fix: bool,
}

/// How bad an issue is.
#[derive(Debug, Clone, Copy, PartialEq, Eq, Structural)]
pub enum Severity {
    Error,
    Warning,
}

/// What repairs an issue.
#[derive(Debug, PartialEq, Eq)]
pub enum FixAction {
    /// Creating the directory.
    CreateDir(String),
    /// Running `git worktree repair` in the worktree; the first path is the
    /// bare clone, the second the worktree.
    RepairWorktree(String, String),
}

/// The value of a `FixAction`.
pub enum FixActionView {
    CreateDir(Seq<char>),
    RepairWorktree(Seq<char>, Seq<char>),
}

impl View for FixAction {
    type V = FixActionView;

    open spec fn view(&self) -> FixActionView {
        match self {
            FixAction::CreateDir(p) => FixActionView::CreateDir(p@),
            FixAction::RepairWorktree(b, w) => FixActionView::RepairWorktree(b@, w@),
        }
    }
}

impl DeepView for FixAction {
    type V = FixActionView;

    open spec fn deep_view(&self) -> FixActionView {
        self@
    }
}

/// Something that does not fit together in the workspace.
#[derive(Debug, PartialEq, Eq)]
pub struct Issue {
    pub severity: Severity,
    pub message: String,
    pub fix: Option<FixAction>,
}

/// The value of a `Issue`.
pub struct IssueView {
    pub severity: Severity,
    pub message: Seq<char>,
    pub fix: Option<FixActionView>,
}

impl View for Issue {
    type V = IssueView;

    open spec fn view(&self) -> IssueView {
        IssueView { severity: self.severity, message: self.message@, fix: self.fix.deep_view() }
    }
}

impl DeepView for Issue {
    type V = IssueView;

    open spec fn deep_view(&self) -> IssueView {
        self@
    }
}

/// An issue that nothing repairs.
pub open spec fn plain_issue(severity: Severity, message: Seq<char>) -> IssueView {
    IssueView { severity, message, fix: None }
}

fn note(issues: &mut Vec<Issue>, severity: Severity, message: String)
    ensures
        final(issues).deep_view() == old(issues).deep_view().push(plain_issue(severity, message@)),
{
    let ghost before = issues.deep_view();
    let issue = Issue { severity, message, fix: None };
    issues.push(issue);
    assert(issues.deep_view() == before.push(issue@));
}

fn note_fixable(issues: &mut Vec<Issue>, message: String, fix: FixAction)
    ensures
        final(issues).deep_view() == old(issues).deep_view().push(
            IssueView { severity: Severity::Warning, message: message@, fix: Some(fix@) },
        ),
{
    let ghost before = issues.deep_view();
    let issue = Issue { severity: Severity::Warning, message, fix: Some(fix) };
    issues.push(issue);
    assert(issues.deep_view() == before.push(issue@));
}

/// Whether two paths name the same place: their canonical forms are the
/// same where both have one, and else their texts are.
pub open spec fn paths_equal_flow(a: Seq<char>, b: Seq<char>, replies: Replies, pos: int)
    -> Outcome<bool> {
    match path_step(replies, pos, RequestView::Canonical(a)) {
        Outcome::Done(ca, p1) => match path_step(replies, p1, RequestView::Canonical(b)) {
            Outcome::Done(cb, p2) => Outcome::Done(
                match (ca, cb) {
                    (Some(x), Some(y)) => same_place(x, y),
                    _ => a == b,
                },
                p2,
            ),
            Outcome::Ask(q) => Outcome::Ask(q),
            Outcome::Failed(f) => Outcome::Failed(f),
        },
        Outcome::Ask(q) => Outcome::Ask(q),
        Outcome::Failed(f) => Outcome::Failed(f),
    }
}

/// Compares two paths, looking through symbolic links where both exist.
pub fn paths_equal(a: &str, b: &str, replies: &Vec<Reply>, pos: &mut usize) -> (r: Progress<bool>)
    ensures
        agrees(r, *final(pos), paths_equal_flow(a@, b@, replies.deep_view(), *old(pos) as int)),
{
    let ca = match ask_path(replies, pos, Request::Canonical(a.to_owned())) {
        Progress::Done(c) => c,
        Progress::Ask(q) => {
            return Progress::Ask(q);
        },
        Progress::Failed(f) => {
            return Progress::Failed(f);
        },
    };
    let cb = match ask_path(replies, pos, Request::Canonical(b.to_owned())) {
        Progress::Done(c) => c,
        Progress::Ask(q) => {
            return Progress::Ask(q);
        },
        Progress::Failed(f) => {
            return Progress::Failed(f);
        },
    };
    match (ca, cb) {
        (Some(x), Some(y)) => Progress::Done(same_path(x.as_str(), y.as_str())),
        _ => Progress::Done(str_eq(a, b)),
    }
}

/// Whether the registry of the bare clone lists the worktree, from index
/// `from` of the list on.
pub open spec fn listed_flow(
    path: Seq<char>,
    list: Seq<WorktreeInfoView>,
    from: int,
    replies: Replies,
    pos: int,
) -> Outcome<bool>
    decreases list.len() - from,
{
    if from < 0 || from >= list.len() {
        Outcome::Done(false, pos)
    } else {
        match paths_equal_flow(path, list[from].path, replies, pos) {
            Outcome::Done(same, next) => if same {
                Outcome::Done(true, next)
            } else {
                listed_flow(path, list, from + 1, replies, next)
            },
            Outcome::Ask(q) => Outcome::Ask(q),
            Outcome::Failed(f) => Outcome::Failed(f),
        }
    }
}

fn is_listed(path: &str, list: &Vec<WorktreeInfo>, replies: &Vec<Reply>, pos: &mut usize) -> (r:
    Progress<bool>)
    ensures
        agrees(
            r,
            *final(pos),
            listed_flow(path@, list.deep_view(), 0, replies.deep_view(), *old(pos) as int),
        ),
{
    let mut i: usize = 0;
    let ghost begin = *pos as int;
    while i < list.len()
        invariant
            i <= list.len(),
            begin == *old(pos) as int,
            listed_flow(path@, list.deep_view(), 0, replies.deep_view(), begin) == listed_flow(
                path@,
                list.deep_view(),
                i as int,
                replies.deep_view(),
                *pos as int,
            ),
        decreases list.len() - i,
    {
        assert(list.deep_view()[i as int] == list[i as int]@);
        match paths_equal(path, list[i].path.as_str(), replies, pos) {
            Progress::Done(same) => {
                if same {
                    return Progress::Done(true);
                }
            },
            Progress::Ask(q) => {
                return Progress::Ask(q);
            },
            Progress::Failed(f) => {
                return Progress::Failed(f);
            },
        }
        i += 1;
    }
    Progress::Done(false)
}

/// The worktrees that the bare clone lists; none where the list cannot be
/// had.
pub open spec fn try_worktrees_flow(bare: Seq<char>, replies: Replies, pos: int) -> Outcome<
    Seq<WorktreeInfoView>,
> {
    match reply_at(replies, pos) {
        None => Outcome::Ask(
            RequestView::Git(git_c(bare, seq!["worktree"@, "list"@, "--porcelain"@])),
        ),
        Some(ReplyView::Git(run)) => if run.success {
            Outcome::Done(parsed_worktrees(run.stdout), pos + 1)
        } else {
            Outcome::Done(Seq::empty(), pos + 1)
        },
        Some(_) => Outcome::Done(Seq::empty(), pos + 1),
    }
}

fn try_list_worktrees(bare: &str, replies: &Vec<Reply>, pos: &mut usize) -> (r: Progress<
    Vec<WorktreeInfo>,
>)
    ensures
        agrees(r, *final(pos), try_worktrees_flow(bare@, replies.deep_view(), *old(pos) as int)),
{
    let rest = vec!["worktree", "list", "--porcelain"];
    assert(rest.deep_view() == seq!["worktree"@, "list"@, "--porcelain"@]);
    match exchange(replies, pos, Request::Git(git_args(bare, rest))) {
        Err(q) => Progress::Ask(q),
        Ok(Reply::Git(run)) => if run.success {
            Progress::Done(parse_worktree_list(run.stdout.as_str()))
        } else {
            let none: Vec<WorktreeInfo> = Vec::new();
            assert(none.deep_view() == Seq::<WorktreeInfoView>::empty());
            Progress::Done(none)
        },
        Ok(_) => {
            let none: Vec<WorktreeInfo> = Vec::new();
            assert(none.deep_view() == Seq::<WorktreeInfoView>::empty());
            Progress::Done(none)
        },
    }
}

/// The check of one worktree of a baum. A directory that is missing is an
/// error, and so is one without `.git`. A worktree that the registry of the
/// bare clone does not list is a warning that `git worktree repair`
/// repairs.
pub open spec fn check_worktree_flow(
    container: Seq<char>,
    bare: Seq<char>,
    list: Seq<WorktreeInfoView>,
    entry: WorktreeEntryView,
    issues: Seq<IssueView>,
    replies: Replies,
    pos: int,
) -> Outcome<Seq<IssueView>> {
    let path = joined(container, entry.path);
    match stat_step(replies, pos, path) {
        Outcome::Done(kind, p1) => if kind == PathKind::Missing {
            Outcome::Done(
                issues.push(
                    plain_issue(
                        Severity::Error,
                        "Missing worktree directory: "@ + path + " (branch: "@ + entry.branch
                            + ")"@,
                    ),
                ),
                p1,
            )
        } else {
            match stat_step(replies, p1, joined(path, ".git"@)) {
                Outcome::Done(marker, p2) => {
                    let marked = if marker == PathKind::Missing {
                        issues.push(
                            plain_issue(
                                Severity::Error,
                                "Invalid worktree (missing .git): "@ + path,
                            ),
                        )
                    } else {
                        issues
                    };
                    match listed_flow(path, list, 0, replies, p2) {
                        Outcome::Done(listed, p3) => Outcome::Done(
                            if listed {
                                marked
                            } else {
                                marked.push(
                                    IssueView {
                                        severity: Severity::Warning,
                                        message: "Worktree not in git's list: "@ + path,
                                        fix: Some(FixActionView::RepairWorktree(bare, path)),
                                    },
                                )
                            },
                            p3,
                        ),
                        Outcome::Ask(q) => Outcome::Ask(q),
                        Outcome::Failed(f) => Outcome::Failed(f),
                    }
                },
                Outcome::Ask(q) => Outcome::Ask(q),
                Outcome::Failed(f) => Outcome::Failed(f),
            }
        },
        Outcome::Ask(q) => Outcome::Ask(q),
        Outcome::Failed(f) => Outcome::Failed(f),
    }
}

/// The checks of the worktrees from index `from` on.
pub open spec fn check_worktrees_flow(
    container: Seq<char>,
    bare: Seq<char>,
    list: Seq<WorktreeInfoView>,
    worktrees: Seq<WorktreeEntryView>,
    from: int,
    issues: Seq<IssueView>,
    replies: Replies,
    pos: int,
) -> Outcome<Seq<IssueView>>
    decreases worktrees.len() - from,
{
    if from < 0 || from >= worktrees.len() {
        Outcome::Done(issues, pos)
    } else {
        match check_worktree_flow(container, bare, list, worktrees[from], issues, replies, pos) {
            Outcome::Done(more, next) => check_worktrees_flow(
                container,
                bare,
                list,
                worktrees,
                from + 1,
                more,
                replies,
                next,
            ),
            Outcome::Ask(q) => Outcome::Ask(q),
            Outcome::Failed(f) => Outcome::Failed(f),
        }
    }
}

fn check_worktree(
    container: &str,
    bare: &str,
    list: &Vec<WorktreeInfo>,
    entry: &WorktreeEntry,
    issues: Vec<Issue>,
    replies: &Vec<Reply>,
    pos: &mut usize,
) -> (r: Progress<Vec<Issue>>)
    ensures
        agrees(
            r,
            *final(pos),
            check_worktree_flow(
                container@,
                bare@,
                list.deep_view(),
                entry@,
                issues.deep_view(),
                replies.deep_view(),
                *old(pos) as int,
            ),
        ),
{
    let mut found = issues;
    let path = join_path(container, entry.path.as_str());
    match ask_stat(replies, pos, path.as_str()) {
        Progress::Done(kind) => {
            if kind == PathKind::Missing {
                note(
                    &mut found,
                    Severity::Error,
                    cat5(
                        "Missing worktree directory: ",
                        path.as_str(),
                        " (branch: ",
                        entry.branch.as_str(),
                        ")",
                    ),
                );
                return Progress::Done(found);
            }
        },
        Progress::Ask(q) => {
            return Progress::Ask(q);
        },
        Progress::Failed(f) => {
            return Progress::Failed(f);
        },
    }
    let marker = join_path(path.as_str(), ".git");
    match ask_stat(replies, pos, marker.as_str()) {
        Progress::Done(kind) => {
            if kind == PathKind::Missing {
                note(
                    &mut found,
                    Severity::Error,
                    cat("Invalid worktree (missing .git): ", path.as_str()),
                );
            }
        },
        Progress::Ask(q) => {
            return Progress::Ask(q);
        },
        Progress::Failed(f) => {
            return Progress::Failed(f);
        },
    }
    match is_listed(path.as_str(), list, replies, pos) {
        Progress::Done(listed) => {
            if !listed {
                note_fixable(
                    &mut found,
                    cat("Worktree not in git's list: ", path.as_str()),
                    FixAction::RepairWorktree(bare.to_owned(), path.clone()),
                );
            }
            Progress::Done(found)
        },
        Progress::Ask(q) => Progress::Ask(q),
        Progress::Failed(f) => Progress::Failed(f),
    }
}

fn check_worktrees(
    container: &str,
    bare: &str,
    list: &Vec<WorktreeInfo>,
    worktrees: &Vec<WorktreeEntry>,
    issues: Vec<Issue>,
    replies: &Vec<Reply>,
    pos: &mut usize,
) -> (r: Progress<Vec<Issue>>)
    ensures
        agrees(
            r,
            *final(pos),
            check_worktrees_flow(
                container@,
                bare@,
                list.deep_view(),
                worktrees.deep_view(),
                0,
                issues.deep_view(),
                replies.deep_view(),
                *old(pos) as int,
            ),
        ),
{
    let ghost first = issues.deep_view();
    let ghost begin = *pos as int;
    let mut found = issues;
    let mut i: usize = 0;
    while i < worktrees.len()
        invariant
            i <= worktrees.len(),
            begin == *old(pos) as int,
            first == issues.deep_view(),
            check_worktrees_flow(
                container@,
                bare@,
                list.deep_view(),
                worktrees.deep_view(),
                0,
                first,
                replies.deep_view(),
                begin,
            ) == check_worktrees_flow(
                container@,
                bare@,
                list.deep_view(),
                worktrees.deep_view(),
                i as int,
                found.deep_view(),
                replies.deep_view(),
                *pos as int,
            ),
        decreases worktrees.len() - i,
    {
        assert(worktrees.deep_view()[i as int] == worktrees[i as int]@);
        found = match check_worktree(container, bare, list, &worktrees[i], found, replies, pos) {
            Progress::Done(f) => f,
            Progress::Ask(q) => {
                return Progress::Ask(q);
            },
            Progress::Failed(f) => {
                return Progress::Failed(f);
            },
        };
        i += 1;
    }
    Progress::Done(found)
}

/// The check of one baum. A descriptor that cannot be read is an error. A
/// repository that is not registered is a warning. A bare clone that is
/// missing is an error. Then come the worktrees.
pub open spec fn check_baum_flow(
    ws: WorkspaceView,
    container: Seq<char>,
    issues: Seq<IssueView>,
    replies: Replies,
    pos: int,
) -> Outcome<Seq<IssueView>> {
    match try_load_baum_step(replies, pos, container) {
        Outcome::Done(LoadedView::Broken(cause), p1) => Outcome::Done(
            issues.push(
                plain_issue(
                    Severity::Error,
                    "Invalid baum manifest at "@ + container + ": "@ + cause,
                ),
            ),
            p1,
        ),
        Outcome::Done(LoadedView::Value(baum), p1) => {
            let known = if has_key(ws.manifest, baum.repo_id) {
                issues
            } else {
                issues.push(
                    plain_issue(
                        Severity::Warning,
                        "Baum "@ + container + " references unregistered repo: "@ + baum.repo_id,
                    ),
                )
            };
            match ws.bare_repo_path(baum.repo_id) {
                Err(_) => Outcome::Done(known, p1),
                Ok(bare) => match stat_step(replies, p1, bare) {
                    Outcome::Done(kind, p2) => if kind == PathKind::Missing {
                        Outcome::Done(
                            known.push(
                                plain_issue(
                                    Severity::Error,
                                    "Baum "@ + container + " missing bare repo: "@ + bare,
                                ),
                            ),
                            p2,
                        )
                    } else {
                        match try_worktrees_flow(bare, replies, p2) {
                            Outcome::Done(list, p3) => check_worktrees_flow(
                                container,
                                bare,
                                list,
                                baum.worktrees,
                                0,
                                known,
                                replies,
                                p3,
                            ),
                            Outcome::Ask(q) => Outcome::Ask(q),
                            Outcome::Failed(f) => Outcome::Failed(f),
                        }
                    },
                    Outcome::Ask(q) => Outcome::Ask(q),
                    Outcome::Failed(f) => Outcome::Failed(f),
                },
            }
        },
        Outcome::Ask(q) => Outcome::Ask(q),
        Outcome::Failed(f) => Outcome::Failed(f),
    }
}

/// Checks one baum and adds what it finds to the issues.
pub fn check_baum(
    ws: &Workspace,
    baum_path: &str,
    issues: Vec<Issue>,
    replies: &Vec<Reply>,
    pos: &mut usize,
) -> (r: Progress<Vec<Issue>>)
    ensures
        agrees(
            r,
            *final(pos),
            check_baum_flow(
                ws@,
                baum_path@,
                issues.deep_view(),
                replies.deep_view(),
                *old(pos) as int,
            ),
        ),
{
    let mut found = issues;
    let baum = match try_load_baum(replies, pos, baum_path) {
        Progress::Done(Loaded::Value(b)) => b,
        Progress::Done(Loaded::Broken(cause)) => {
            note(
                &mut found,
                Severity::Error,
                cat4("Invalid baum manifest at ", baum_path, ": ", cause.as_str()),
            );
            return Progress::Done(found);
        },
        Progress::Ask(q) => {
            return Progress::Ask(q);
        },
        Progress::Failed(f) => {
            return Progress::Failed(f);
        },
    };
    if !ws.manifest.has_repo(baum.repo_id.as_str()) {
        note(
            &mut found,
            Severity::Warning,
            cat4("Baum ", baum_path, " references unregistered repo: ", baum.repo_id.as_str()),
        );
    }
    let bare = match ws.bare_repo_path(baum.repo_id.as_str()) {
        Ok(p) => p,
        Err(_) => {
            return Progress::Done(found);
        },
    };
    match ask_stat(replies, pos, bare.as_str()) {
        Progress::Done(kind) => {
            if kind == PathKind::Missing {
                note(
                    &mut found,
                    Severity::Error,
                    cat4("Baum ", baum_path, " missing bare repo: ", bare.as_str()),
                );
                return Progress::Done(found);
            }
        },
        Progress::Ask(q) => {
            return Progress::Ask(q);
        },
        Progress::Failed(f) => {
            return Progress::Failed(f);
        },
    }
    let list = match try_list_worktrees(bare.as_str(), replies, pos) {
        Progress::Done(l) => l,
        Progress::Ask(q) => {
            return Progress::Ask(q);
        },
        Progress::Failed(f) => {
            return Progress::Failed(f);
        },
    };
    check_worktrees(baum_path, bare.as_str(), &list, &baum.worktrees, found, replies, pos)
}

/// The checks of the structure of the workspace: the registry must be
/// there, and the directory of the bare clones should be.
pub open spec fn check_structure_flow(ws: WorkspaceView, replies: Replies, pos: int) -> Outcome<
    Seq<IssueView>,
> {
    match stat_step(replies, pos, ws.manifest_path()) {
        Outcome::Done(registry, p1) => {
            let first = if registry == PathKind::Missing {
                seq![plain_issue(Severity::Error, "Missing manifest.yaml"@)]
            } else {
                Seq::<IssueView>::empty()
            };
            match stat_step(replies, p1, ws.repos_dir()) {
                Outcome::Done(repos, p2) => Outcome::Done(
                    if repos == PathKind::Missing {
                        first.push(
                            IssueView {
                                severity: Severity::Warning,
                                message: "Missing repos directory"@,
                                fix: Some(FixActionView::CreateDir(ws.repos_dir())),
                            },
                        )
                    } else {
                        first
                    },
                    p2,
                ),
                Outcome::Ask(q) => Outcome::Ask(q),
                Outcome::Failed(f) => Outcome::Failed(f),
            }
        },
        Outcome::Ask(q) => Outcome::Ask(q),
        Outcome::Failed(f) => Outcome::Failed(f),
    }
}

fn check_structure(ws: &Workspace, replies: &Vec<Reply>, pos: &mut usize) -> (r: Progress<Vec<Issue>>)
    ensures
        agrees(r, *final(pos), check_structure_flow(ws@, replies.deep_view(), *old(pos) as int)),
{
    let mut found: Vec<Issue> = Vec::new();
    assert(found.deep_view() == Seq::<IssueView>::empty());
    let registry = ws.manifest_path();
    match ask_stat(replies, pos, registry.as_str()) {
        Progress::Done(kind) => {
            if kind == PathKind::Missing {
                note(&mut found, Severity::Error, "Missing manifest.yaml".to_owned());
            }
        },
        Progress::Ask(q) => {
            return Progress::Ask(q);
        },
        Progress::Failed(f) => {
            return Progress::Failed(f);
        },
    }
    let repos = ws.repos_dir();
    match ask_stat(replies, pos, repos.as_str()) {
        Progress::Done(kind) => {
            if kind == PathKind::Missing {
                note_fixable(
                    &mut found,
                    "Missing repos directory".to_owned(),
                    FixAction::CreateDir(repos),
                );
            }
            Progress::Done(found)
        },
        Progress::Ask(q) => Progress::Ask(q),
        Progress::Failed(f) => Progress::Failed(f),
    }
}

/// The checks of the registered repositories from index `from` on: a
/// repository whose bare clone is missing is a warning.
pub open spec fn check_repos_flow(
    ws: WorkspaceView,
    from: int,
    issues: Seq<IssueView>,
    replies: Replies,
    pos: int,
) -> Outcome<Seq<IssueView>>
    decreases ws.manifest.len() - from,
{
    if from < 0 || from >= ws.manifest.len() {
        Outcome::Done(issues, pos)
    } else {
        let id = ws.manifest[from].0;
        match ws.bare_repo_path(id) {
            Err(_) => check_repos_flow(ws, from + 1, issues, replies, pos),
            Ok(bare) => match stat_step(replies, pos, bare) {
                Outcome::Done(kind, next) => check_repos_flow(
                    ws,
                    from + 1,
                    if kind == PathKind::Missing {
                        issues.push(plain_issue(Severity::Warning, "Bare repo not cloned: "@ + id))
                    } else {
                        issues
                    },
                    replies,
                    next,
                ),
                Outcome::Ask(q) => Outcome::Ask(q),
                Outcome::Failed(f) => Outcome::Failed(f),
            },
        }
    }
}

fn check_repos(ws: &Workspace, issues: Vec<Issue>, replies: &Vec<Reply>, pos: &mut usize) -> (r:
    Progress<Vec<Issue>>)
    ensures
        agrees(
            r,
            *final(pos),
            check_repos_flow(ws@, 0, issues.deep_view(), replies.deep_view(), *old(pos) as int),
        ),
{
    let ghost first = issues.deep_view();
    let ghost begin = *pos as int;
    let mut found = issues;
    let n = ws.manifest.repos.len();
    let mut i: usize = 0;
    while i < n
        invariant
            i <= n,
            n == ws@.manifest.len(),
            begin == *old(pos) as int,
            first == issues.deep_view(),
            check_repos_flow(ws@, 0, first, replies.deep_view(), begin) == check_repos_flow(
                ws@,
                i as int,
                found.deep_view(),
                replies.deep_view(),
                *pos as int,
            ),
        decreases n - i,
    {
        let id = ws.manifest.repos.key_at(i);
        if let Ok(bare) = ws.bare_repo_path(id) {
            match ask_stat(replies, pos, bare.as_str()) {
                Progress::Done(kind) => {
                    if kind == PathKind::Missing {
                        note(&mut found, Severity::Warning, cat("Bare repo not cloned: ", id));
                    }
                },
                Progress::Ask(q) => {
                    return Progress::Ask(q);
                },
                Progress::Failed(f) => {
                    return Progress::Failed(f);
                },
            }
        }
        i += 1;
    }
    Progress::Done(found)
}

/// The checks of the baums in the containers from index `from` on.
pub open spec fn check_baums_flow(
    ws: WorkspaceView,
    containers: Seq<Seq<char>>,
    from: int,
    issues: Seq<IssueView>,
    replies: Replies,
    pos: int,
) -> Outcome<Seq<IssueView>>
    decreases containers.len() - from,
{
    if from < 0 || from >= containers.len() {
        Outcome::Done(issues, pos)
    } else {
        match check_baum_flow(ws, containers[from], issues, replies, pos) {
            Outcome::Done(more, next) => check_baums_flow(
                ws,
                containers,
                from + 1,
                more,
                replies,
                next,
            ),
            Outcome::Ask(q) => Outcome::Ask(q),
            Outcome::Failed(f) => Outcome::Failed(f),
        }
    }
}

fn check_baums(
    ws: &Workspace,
    containers: &Vec<String>,
    issues: Vec<Issue>,
    replies: &Vec<Reply>,
    pos: &mut usize,
) -> (r: Progress<Vec<Issue>>)
    ensures
        agrees(
            r,
            *final(pos),
            check_baums_flow(
                ws@,
                containers.deep_view(),
                0,
                issues.deep_view(),
                replies.deep_view(),
                *old(pos) as int,
            ),
        ),
{
    let ghost first = issues.deep_view();
    let ghost begin = *pos as int;
    let mut found = issues;
    let mut i: usize = 0;
    while i < containers.len()
        invariant
            i <= containers.len(),
            begin == *old(pos) as int,
            first == issues.deep_view(),
            check_baums_flow(ws@, containers.deep_view(), 0, first, replies.deep_view(), begin)
                == check_baums_flow(
                ws@,
                containers.deep_view(),
                i as int,
                found.deep_view(),
                replies.deep_view(),
                *pos as int,
            ),
        decreases containers.len() - i,
    {
        assert(containers.deep_view()[i as int] == containers[i as int]@);
        found = match check_baum(ws, containers[i].as_str(), found, replies, pos) {
            Progress::Done(f) => f,
            Progress::Ask(q) => {
                return Progress::Ask(q);
            },
            Progress::Failed(f) => {
                return Progress::Failed(f);
            },
        };
        i += 1;
    }
    Progress::Done(found)
}

/// Applying a fix: what went wrong, if anything did.
pub open spec fn apply_fix_flow(fix: FixActionView, replies: Replies, pos: int) -> Outcome<
    Option<Seq<char>>,
> {
    match fix {
        FixActionView::CreateDir(path) => match reply_at(replies, pos) {
            None => Outcome::Ask(RequestView::MakeDirs(path)),
            Some(ReplyView::Done) => Outcome::Done(None, pos + 1),
            Some(ReplyView::Failed(cause)) => Outcome::Done(Some(cause), pos + 1),
            Some(_) => Outcome::Failed(crate::flow::driver_fault()),
        },
        FixActionView::RepairWorktree(_, worktree) => match reply_at(replies, pos) {
            None => Outcome::Ask(RequestView::Git(git_c(worktree, seq!["worktree"@, "repair"@]))),
            Some(ReplyView::Git(run)) => if run.success {
                Outcome::Done(None, pos + 1)
            } else {
                Outcome::Done(
                    Some(with_stderr("git worktree repair failed"@, run.stderr)),
                    pos + 1,
                )
            },
            Some(ReplyView::Failed(cause)) => Outcome::Done(Some(cause), pos + 1),
            Some(_) => Outcome::Failed(crate::flow::driver_fault()),
        },
    }
}

/// Applies the fix of an issue.
pub fn apply_fix(fix: &FixAction, replies: &Vec<Reply>, pos: &mut usize) -> (r: Progress<
    Option<String>,
>)
    ensures
        agrees(r, *final(pos), apply_fix_flow(fix@, replies.deep_view(), *old(pos) as int)),
{
    match fix {
        FixAction::CreateDir(path) => match exchange(replies, pos, Request::MakeDirs(path.clone())) {
            Err(q) => Progress::Ask(q),
            Ok(Reply::Done) => Progress::Done(None),
            Ok(Reply::Failed(cause)) => Progress::Done(Some(cause.clone())),
            Ok(_) => Progress::Failed(crate::flow::driver_failure()),
        },
        FixAction::RepairWorktree(_, worktree) => {
            let rest = vec!["worktree", "repair"];
            assert(rest.deep_view() == seq!["worktree"@, "repair"@]);
            match exchange(replies, pos, Request::Git(git_args(worktree.as_str(), rest))) {
                Err(q) => Progress::Ask(q),
                Ok(Reply::Git(run)) => if run.success {
                    Progress::Done(None)
                } else {
                    Progress::Done(Some(stderr_message("git worktree repair failed", run)))
                },
                Ok(Reply::Failed(cause)) => Progress::Done(Some(cause.clone())),
                Ok(_) => Progress::Failed(crate::flow::driver_failure()),
            }
        },
    }
}

/// How many of the issues are of the given severity.
pub open spec fn count_of(issues: Seq<IssueView>, severity: Severity) -> nat
    decreases issues.len(),
{
    if issues.len() == 0 {
        0
    } else {
        count_of(issues.drop_last(), severity) + if issues.last().severity == severity {
            1nat
        } else {
            0nat
        }
    }
}

/// Whether something repairs one of the issues.
pub open spec fn any_fixable(issues: Seq<IssueView>) -> bool {
    exists|i: int| 0 <= i < issues.len() && (#[trigger] issues[i]).fix.is_some()
}

fn count_severity(issues: &Vec<Issue>, severity: Severity) -> (n: usize)
    ensures
        n == count_of(issues.deep_view(), severity),
{
    let mut n: usize = 0;
    let mut i: usize = 0;
    let ghost all = issues.deep_view();
    assert(all.take(0) == Seq::<IssueView>::empty());
    while i < issues.len()
        invariant
            i <= issues.len(),
            n <= i,
            all == issues.deep_view(),
            n == count_of(all.take(i as int), severity),
        decreases issues.len() - i,
    {
        assert(all.take(i + 1).drop_last() == all.take(i as int));
        assert(all.take(i + 1).last() == issues[i as int]@);
        if issues[i].severity == severity {
            n += 1;
        }
        i += 1;
    }
    assert(all.take(all.len() as int) == all);
    n
}

fn has_fixable(issues: &Vec<Issue>) -> (r: bool)
    ensures
        r == any_fixable(issues.deep_view()),
{
    let mut i: usize = 0;
    while i < issues.len()
        invariant
            i <= issues.len(),
            forall|k: int| 0 <= k < i ==> (#[trigger] issues.deep_view()[k]).fix.is_none(),
        decreases issues.len() - i,
    {
        assert(issues.deep_view()[i as int] == issues[i as int]@);
        if issues[i].fix.is_some() {
            return true;
        }
        i += 1;
    }
    false
}

/// The line that shows one issue.
pub open spec fn issue_line(issue: IssueView) -> Seq<char> {
    if issue.severity == Severity::Error {
        "  [ERROR] "@ + issue.message
    } else {
        "  [WARN] "@ + issue.message
    }
}

/// Showing one issue, and repairing it where that is asked for and the
/// issue has a fix.
pub open spec fn show_issue_flow(fix: bool, issue: IssueView, replies: Replies, pos: int)
    -> Outcome<()> {
    match print_say(issue_line(issue), replies, pos) {
        Outcome::Done(_, p1) => match issue.fix {
            Some(action) => if fix {
                match apply_fix_flow(action, replies, p1) {
                    Outcome::Done(None, p2) => print_say("         Fixed!"@, replies, p2),
                    Outcome::Done(Some(cause), p2) => print_say(
                        "         Failed to fix: "@ + cause,
                        replies,
                        p2,
                    ),
                    Outcome::Ask(q) => Outcome::Ask(q),
                    Outcome::Failed(f) => Outcome::Failed(f),
                }
            } else {
                Outcome::Done((), p1)
            },
            None => Outcome::Done((), p1),
        },
        Outcome::Ask(q) => Outcome::Ask(q),
        Outcome::Failed(f) => Outcome::Failed(f),
    }
}

/// Showing the issues from index `from` on.
pub open spec fn show_issues_flow(
    fix: bool,
    issues: Seq<IssueView>,
    from: int,
    replies: Replies,
    pos: int,
) -> Outcome<()>
    decreases issues.len() - from,
{
    if from < 0 || from >= issues.len() {
        Outcome::Done((), pos)
    } else {
        match show_issue_flow(fix, issues[from], replies, pos) {
            Outcome::Done(_, next) => show_issues_flow(fix, issues, from + 1, replies, next),
            Outcome::Ask(q) => Outcome::Ask(q),
            Outcome::Failed(f) => Outcome::Failed(f),
        }
    }
}

fn show_issue(fix: bool, issue: &Issue, replies: &Vec<Reply>, pos: &mut usize) -> (r: Progress<()>)
    ensures
        agrees(r, *final(pos), show_issue_flow(fix, issue@, replies.deep_view(), *old(pos) as int)),
{
    let prefix = match issue.severity {
        Severity::Error => "  [ERROR] ",
        Severity::Warning => "  [WARN] ",
    };
    match say_print(cat(prefix, issue.message.as_str()), replies, pos) {
        Progress::Done(_) => {},
        Progress::Ask(q) => {
            return Progress::Ask(q);
        },
        Progress::Failed(f) => {
            return Progress::Failed(f);
        },
    }
    match &issue.fix {
        Some(action) => {
            if !fix {
                return Progress::Done(());
            }
            match apply_fix(action, replies, pos) {
                Progress::Done(None) => say_print("         Fixed!".to_owned(), replies, pos),
                Progress::Done(Some(cause)) => say_print(
                    cat("         Failed to fix: ", cause.as_str()),
                    replies,
                    pos,
                ),
                Progress::Ask(q) => Progress::Ask(q),
                Progress::Failed(f) => Progress::Failed(f),
            }
        },
        None => Progress::Done(()),
    }
}

fn show_issues(fix: bool, issues: &Vec<Issue>, replies: &Vec<Reply>, pos: &mut usize) -> (r: Progress<
    (),
>)
    ensures
        agrees(
            r,
            *final(pos),
            show_issues_flow(fix, issues.deep_view(), 0, replies.deep_view(), *old(pos) as int),
        ),
{
    let mut i: usize = 0;
    let ghost begin = *pos as int;
    while i < issues.len()
        invariant
            i <= issues.len(),
            begin == *old(pos) as int,
            show_issues_flow(fix, issues.deep_view(), 0, replies.deep_view(), begin)
                == show_issues_flow(
                fix,
                issues.deep_view(),
                i as int,
                replies.deep_view(),
                *pos as int,
            ),
        decreases issues.len() - i,
    {
        assert(issues.deep_view()[i as int] == issues[i as int]@);
        match show_issue(fix, &issues[i], replies, pos) {
            Progress::Done(_) => {},
            Progress::Ask(q) => {
                return Progress::Ask(q);
            },
            Progress::Failed(f) => {
                return Progress::Failed(f);
            },
        }
        i += 1;
    }
    Progress::Done(())
}

/// The line that sums the issues up.
pub open spec fn summary_line(issues: Seq<IssueView>) -> Seq<char> {
    "Found "@ + decimal_text(issues.len()) + " issue(s) ("@ + decimal_text(
        count_of(issues, Severity::Error),
    ) + " errors, "@ + decimal_text(count_of(issues, Severity::Warning)) + " warnings)"@
}

/// The report of `doctor`: the summary, the issues one by one with what
/// became of their fixes, and a hint at `--fix` where fixes were left
/// alone.
pub open spec fn report_flow(
    out: Output,
    fix: bool,
    issues: Seq<IssueView>,
    replies: Replies,
    pos: int,
) -> Outcome<()> {
    match print_say(""@, replies, pos) {
        Outcome::Done(_, p1) => if issues.len() == 0 {
            success_say(out, "No issues found"@, replies, p1)
        } else {
            match print_say(summary_line(issues), replies, p1) {
                Outcome::Done(_, p2) => match print_say(""@, replies, p2) {
                    Outcome::Done(_, p3) => match show_issues_flow(fix, issues, 0, replies, p3) {
                        Outcome::Done(_, p4) => if !fix && any_fixable(issues) {
                            match print_say(""@, replies, p4) {
                                Outcome::Done(_, p5) => print_say(
                                    "Run with --fix to automatically repair fixable issues"@,
                                    replies,
                                    p5,
                                ),
                                Outcome::Ask(q) => Outcome::Ask(q),
                                Outcome::Failed(f) => Outcome::Failed(f),
                            }
                        } else {
                            Outcome::Done((), p4)
                        },
                        Outcome::Ask(q) => Outcome::Ask(q),
                        Outcome::Failed(f) => Outcome::Failed(f),
                    },
                    Outcome::Ask(q) => Outcome::Ask(q),
                    Outcome::Failed(f) => Outcome::Failed(f),
                },
                Outcome::Ask(q) => Outcome::Ask(q),
                Outcome::Failed(f) => Outcome::Failed(f),
            }
        },
        Outcome::Ask(q) => Outcome::Ask(q),
        Outcome::Failed(f) => Outcome::Failed(f),
    }
}

fn report(out: &Output, fix: bool, issues: &Vec<Issue>, replies: &Vec<Reply>, pos: &mut usize) -> (r:
    Progress<()>)
    ensures
        agrees(
            r,
            *final(pos),
            report_flow(*out, fix, issues.deep_view(), replies.deep_view(), *old(pos) as int),
        ),
{
    proof {
        reveal_strlit("");
        assert(""@ == Seq::<char>::empty());
    }
    match say_print(String::new(), replies, pos) {
        Progress::Done(_) => {},
        Progress::Ask(q) => {
            return Progress::Ask(q);
        },
        Progress::Failed(f) => {
            return Progress::Failed(f);
        },
    }
    if issues.len() == 0 {
        return say_success(out, "No issues found", replies, pos);
    }
    let total = format_decimal(issues.len() as u64);
    let errors = format_decimal(count_severity(issues, Severity::Error) as u64);
    let warnings = format_decimal(count_severity(issues, Severity::Warning) as u64);
    let head = cat5("Found ", total.as_str(), " issue(s) (", errors.as_str(), " errors, ");
    let line = cat3(head.as_str(), warnings.as_str(), " warnings)");
    match say_print(line, replies, pos) {
        Progress::Done(_) => {},
        Progress::Ask(q) => {
            return Progress::Ask(q);
        },
        Progress::Failed(f) => {
            return Progress::Failed(f);
        },
    }
    match say_print(String::new(), replies, pos) {
        Progress::Done(_) => {},
        Progress::Ask(q) => {
            return Progress::Ask(q);
        },
        Progress::Failed(f) => {
            return Progress::Failed(f);
        },
    }
    match show_issues(fix, issues, replies, pos) {
        Progress::Done(_) => {},
        Progress::Ask(q) => {
            return Progress::Ask(q);
        },
        Progress::Failed(f) => {
            return Progress::Failed(f);
        },
    }
    if !fix && has_fixable(issues) {
        match say_print(String::new(), replies, pos) {
            Progress::Done(_) => {},
            Progress::Ask(q) => {
                return Progress::Ask(q);
            },
            Progress::Failed(f) => {
                return Progress::Failed(f);
            },
        }
        return say_print(
            "Run with --fix to automatically repair fixable issues".to_owned(),
            replies,
            pos,
        );
    }
    Progress::Done(())
}

/// Checking the health of the workspace: its structure, its registered
/// repositories and its baums, in that order. The result lists the issues
/// in the order in which they were found.
pub open spec fn doctor_flow(
    ws: WorkspaceView,
    opts: DoctorOptions,
    out: Output,
    replies: Replies,
    pos: int,
) -> Outcome<Seq<IssueView>> {
    if out.format == OutputFormat::Json {
        Outcome::Failed(json_unsupported("doctor"@))
    } else {
        match status_say(out, "Checking"@, "workspace structure"@, replies, pos) {
            Outcome::Done(_, p1) => match check_structure_flow(ws, replies, p1) {
                Outcome::Done(first, p2) => match status_say(
                    out,
                    "Checking"@,
                    "registered repositories"@,
                    replies,
                    p2,
                ) {
                    Outcome::Done(_, p3) => match check_repos_flow(ws, 0, first, replies, p3) {
                        Outcome::Done(second, p4) => match status_say(
                            out,
                            "Checking"@,
                            "planted baums"@,
                            replies,
                            p4,
                        ) {
                            Outcome::Done(_, p5) => match containers_step(replies, p5, ws.root) {
                                Outcome::Done(containers, p6) => match check_baums_flow(
                                    ws,
                                    containers,
                                    0,
                                    second,
                                    replies,
                                    p6,
                                ) {
                                    Outcome::Done(issues, p7) => match report_flow(
                                        out,
                                        opts.fix,
                                        issues,
                                        replies,
                                        p7,
                                    ) {
                                        Outcome::Done(_, p8) => Outcome::Done(issues, p8),
                                        Outcome::Ask(q) => Outcome::Ask(q),
                                        Outcome::Failed(f) => Outcome::Failed(f),
                                    },
                                    Outcome::Ask(q) => Outcome::Ask(q),
                                    Outcome::Failed(f) => Outcome::Failed(f),
                                },
                                Outcome::Ask(q) => Outcome::Ask(q),
                                Outcome::Failed(f) => Outcome::Failed(f),
                            },
                            Outcome::Ask(q) => Outcome::Ask(q),
                            Outcome::Failed(f) => Outcome::Failed(f),
                        },
                        Outcome::Ask(q) => Outcome::Ask(q),
                        Outcome::Failed(f) => Outcome::Failed(f),
                    },
                    Outcome::Ask(q) => Outcome::Ask(q),
                    Outcome::Failed(f) => Outcome::Failed(f),
                },
                Outcome::Ask(q) => Outcome::Ask(q),
                Outcome::Failed(f) => Outcome::Failed(f),
            },
            Outcome::Ask(q) => Outcome::Ask(q),
            Outcome::Failed(f) => Outcome::Failed(f),
        }
    }
}

/// Checks the health of the workspace and repairs what it is asked to.
pub fn doctor(
    ws: &Workspace,
    opts: &DoctorOptions,
    out: &Output,
    replies: &Vec<Reply>,
    pos: &mut usize,
) -> (r: Progress<Vec<Issue>>)
    ensures
        agrees(r, *final(pos), doctor_flow(ws@, *opts, *out, replies.deep_view(), *old(pos) as int)),
{
    if let Err(f) = out.require_human("doctor") {
        return Progress::Failed(f);
    }
    match say_status(out, "Checking", "workspace structure", replies, pos) {
        Progress::Done(_) => {},
        Progress::Ask(q) => {
            return Progress::Ask(q);
        },
        Progress::Failed(f) => {
            return Progress::Failed(f);
        },
    }
    let first = match check_structure(ws, replies, pos) {
        Progress::Done(i) => i,
        Progress::Ask(q) => {
            return Progress::Ask(q);
        },
        Progress::Failed(f) => {
            return Progress::Failed(f);
        },
    };
    match say_status(out, "Checking", "registered repositories", replies, pos) {
        Progress::Done(_) => {},
        Progress::Ask(q) => {
            return Progress::Ask(q);
        },
        Progress::Failed(f) => {
            return Progress::Failed(f);
        },
    }
    let second = match check_repos(ws, first, replies, pos) {
        Progress::Done(i) => i,
        Progress::Ask(q) => {
            return Progress::Ask(q);
        },
        Progress::Failed(f) => {
            return Progress::Failed(f);
        },
    };
    match say_status(out, "Checking", "planted baums", replies, pos) {
        Progress::Done(_) => {},
        Progress::Ask(q) => {
            return Progress::Ask(q);
        },
        Progress::Failed(f) => {
            return Progress::Failed(f);
        },
    }
    let containers = match find_containers(ws.root.as_str(), replies, pos) {
        Progress::Done(c) => c,
        Progress::Ask(q) => {
            return Progress::Ask(q);
        },
        Progress::Failed(f) => {
            return Progress::Failed(f);
        },
    };
    let issues = match check_baums(ws, &containers, second, replies, pos) {
        Progress::Done(i) => i,
        Progress::Ask(q) => {
            return Progress::Ask(q);
        },
        Progress::Failed(f) => {
            return Progress::Failed(f);
        },
    };
    match report(out, opts.fix, &issues, replies, pos) {
        Progress::Done(_) => Progress::Done(issues),
        Progress::Ask(q) => Progress::Ask(q),
        Progress::Failed(f) => Progress::Failed(f),
    }
}

/// Nothing is repaired unless that is asked for: without `--fix` the report
/// asks for nothing but lines to be printed.
pub proof fn lemma_report_without_fix(
    issues: Seq<IssueView>,
    from: int,
    replies: Replies,
    pos: int,
)
    requires
        0 <= from,
    ensures
        show_issues_flow(false, issues, from, replies, pos) matches Outcome::Ask(q) ==> q is Say,
        !(show_issues_flow(false, issues, from, replies, pos) is Failed),
    decreases issues.len() - from,
{
    if from < issues.len() {
        if let Outcome::Done(_, next) = show_issue_flow(false, issues[from], replies, pos) {
            lemma_report_without_fix(issues, from + 1, replies, next);
        }
    }
}

} // verus!
