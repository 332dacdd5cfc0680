//! `worktrees`: every worktree of the workspace, container by container.

use vstd::prelude::*;
use crate::commands::status::{print_lines, print_lines_flow};
use crate::flow::{
    agrees, try_ask, try_load_baum, try_load_baum_step, try_step, Loaded, LoadedView, Outcome,
    Progress, Replies, Reply, Request, RequestView,
};
use crate::order::{lex_le, str_le};
use crate::output::{Output, OutputFormat};
use crate::paths::{relative_to, strip_base};
use crate::report::{info_say, say_info};
use crate::text::{cat4, str_eq};
use crate::types::manifest::{BaumManifest, BaumView};
use crate::workspace::discovery::{
    containers_step, find_containers, Workspace, WorkspaceView,
};
use crate::workspace::path_safety::{validate_flow, validate_workspace_path};

verus! {

/// What `worktrees` is asked to do.
#[derive(Debug)]
pub struct WorktreesOptions {
    /// The directory to look in; the whole workspace where there is none.
    pub filter: Option<String>,
}

/// The value of a `WorktreesOptions`.
pub struct WorktreesOptionsView {
    pub filter: Option<Seq<char>>,
}

impl View for WorktreesOptions {
    type V = WorktreesOptionsView;

    open spec fn view(&self) -> WorktreesOptionsView {
        WorktreesOptionsView { filter: self.filter.deep_view() }
    }
}

/// One worktree as it is listed.
#[derive(Debug, PartialEq, Eq)]
pub struct WorktreeDisplay {
    pub repo_id: String,
    /// The container, relative to the workspace root where it lies in it.
    pub container: String,
    pub branch: String,
    pub path: String,
}

/// The value of a `WorktreeDisplay`.
pub struct WorktreeDisplayView {
    pub repo_id: Seq<char>,
    pub container: Seq<char>,
    pub branch: Seq<char>,
    pub path: Seq<char>,
}

impl View for WorktreeDisplay {
    type V = WorktreeDisplayView;

    open spec fn view(&self) -> WorktreeDisplayView {
        WorktreeDisplayView {
            repo_id: self.repo_id@,
            container: self.container@,
            branch: self.branch@,
            path: self.path@,
        }
    }
}

impl DeepView for WorktreeDisplay {
    type V = WorktreeDisplayView;

    open spec fn deep_view(&self) -> WorktreeDisplayView {
        self@
    }
}

impl Clone for WorktreeDisplay {
    fn clone(&self) -> (r: Self)
        ensures
            r@ == self@,
    {
        WorktreeDisplay {
            repo_id: self.repo_id.clone(),
            container: self.container.clone(),
            branch: self.branch.clone(),
            path: self.path.clone(),
        }
    }
}

/// Whether one worktree is listed before another, or may be: by container
/// first, and by branch among the worktrees of one container.
pub open spec fn listed_before(a: WorktreeDisplayView, b: WorktreeDisplayView) -> bool {
    if a.container == b.container {
        lex_le(a.branch, b.branch)
    } else {
        lex_le(a.container, b.container)
    }
}

/// The first position of `s` whose item is listed after `x`.
pub open spec fn first_listed_after(s: Seq<WorktreeDisplayView>, x: WorktreeDisplayView, from: int)
    -> int
    decreases s.len() - from,
{
    if from < 0 || from >= s.len() {
        s.len() as int
    } else if !listed_before(s[from], x) {
        from
    } else {
        first_listed_after(s, x, from + 1)
    }
}

/// The worktrees in the order in which they are listed; worktrees that are
/// listed alike keep the order in which they were found.
pub open spec fn listing_order(items: Seq<WorktreeDisplayView>) -> Seq<WorktreeDisplayView>
    decreases items.len(),
{
    if items.len() == 0 {
        Seq::<WorktreeDisplayView>::empty()
    } else {
        let init = listing_order(items.drop_last());
        init.insert(first_listed_after(init, items.last(), 0), items.last())
    }
}

fn comes_before(a: &WorktreeDisplay, b: &WorktreeDisplay) -> (r: bool)
    ensures
        r == listed_before(a@, b@),
{
    if str_eq(a.container.as_str(), b.container.as_str()) {
        str_le(a.branch.as_str(), b.branch.as_str())
    } else {
        str_le(a.container.as_str(), b.container.as_str())
    }
}

/// Puts the worktrees into the order in which they are listed.
pub fn sort_displays(items: Vec<WorktreeDisplay>) -> (out: Vec<WorktreeDisplay>)
    ensures
        out.deep_view() == listing_order(items.deep_view()),
{
    let mut out: Vec<WorktreeDisplay> = Vec::new();
    let mut i: usize = 0;
    assert(items.deep_view().take(0) == Seq::<WorktreeDisplayView>::empty());
    assert(out.deep_view() == Seq::<WorktreeDisplayView>::empty());
    while i < items.len()
        invariant
            i <= items.len(),
            out.len() == i,
            out.deep_view() == listing_order(items.deep_view().take(i as int)),
        decreases items.len() - i,
    {
        let x = items[i].clone();
        let mut p: usize = 0;
        while p < out.len() && comes_before(&out[p], &x)
            invariant
                p <= out.len(),
                first_listed_after(out.deep_view(), x@, 0) == first_listed_after(
                    out.deep_view(),
                    x@,
                    p as int,
                ),
            decreases out.len() - p,
        {
            assert(out.deep_view()[p as int] == out[p as int]@);
            p += 1;
        }
        assert(p < out.len() ==> out.deep_view()[p as int] == out[p as int]@);
        let ghost before = out.deep_view();
        out.insert(p, x);
        assert(out.deep_view() == before.insert(p as int, x@));
        assert(items.deep_view().take(i + 1).drop_last() == items.deep_view().take(i as int));
        assert(items.deep_view().take(i + 1).last() == items[i as int]@);
        i += 1;
    }
    assert(items.deep_view().take(items.len() as int) == items.deep_view());
    out
}

/// The worktrees of one baum as they are listed, after those that were
/// found before.
pub open spec fn displays_of(
    shown: Seq<char>,
    baum: BaumView,
    from: int,
    so_far: Seq<WorktreeDisplayView>,
) -> Seq<WorktreeDisplayView>
    decreases baum.worktrees.len() - from,
{
    if from < 0 || from >= baum.worktrees.len() {
        so_far
    } else {
        displays_of(
            shown,
            baum,
            from + 1,
            so_far.push(
                WorktreeDisplayView {
                    repo_id: baum.repo_id,
                    container: shown,
                    branch: baum.worktrees[from].branch,
                    path: baum.worktrees[from].path,
                },
            ),
        )
    }
}

/// How a container is shown: relative to the workspace root where it lies
/// under it, and whole where it does not.
pub open spec fn shown_container(root: Seq<char>, container: Seq<char>) -> Seq<char> {
    match relative_to(container, root) {
        Some(rel) => rel,
        None => container,
    }
}

/// The worktrees of the baums in the containers from index `from` on.
pub open spec fn collect_flow(
    root: Seq<char>,
    containers: Seq<Seq<char>>,
    from: int,
    so_far: Seq<WorktreeDisplayView>,
    replies: Replies,
    pos: int,
) -> Outcome<Seq<WorktreeDisplayView>>
    decreases containers.len() - from,
{
    if from < 0 || from >= containers.len() {
        Outcome::Done(so_far, pos)
    } else {
        match try_load_baum_step(replies, pos, containers[from]) {
            Outcome::Done(LoadedView::Value(baum), next) => collect_flow(
                root,
                containers,
                from + 1,
                displays_of(shown_container(root, containers[from]), baum, 0, so_far),
                replies,
                next,
            ),
            Outcome::Done(LoadedView::Broken(_), next) => collect_flow(
                root,
                containers,
                from + 1,
                so_far,
                replies,
                next,
            ),
            Outcome::Ask(q) => Outcome::Ask(q),
            Outcome::Failed(f) => Outcome::Failed(f),
        }
    }
}

fn add_displays(shown: &str, baum: &BaumManifest, items: Vec<WorktreeDisplay>) -> (out: Vec<
    WorktreeDisplay,
>)
    ensures
        out.deep_view() == displays_of(shown@, baum@, 0, items.deep_view()),
{
    let ghost first = items.deep_view();
    let mut out = items;
    let mut i: usize = 0;
    while i < baum.worktrees.len()
        invariant
            i <= baum.worktrees.len(),
            displays_of(shown@, baum@, 0, first) == displays_of(
                shown@,
                baum@,
                i as int,
                out.deep_view(),
            ),
        decreases baum.worktrees.len() - i,
    {
        assert(baum@.worktrees[i as int] == baum.worktrees[i as int]@);
        let ghost before = out.deep_view();
        let item = WorktreeDisplay {
            repo_id: baum.repo_id.clone(),
            container: shown.to_owned(),
            branch: baum.worktrees[i].branch.clone(),
            path: baum.worktrees[i].path.clone(),
        };
        out.push(item);
        assert(out.deep_view() == before.push(item@));
        i += 1;
    }
    out
}

fn collect(root: &str, containers: &Vec<String>, replies: &Vec<Reply>, pos: &mut usize) -> (r:
    Progress<Vec<WorktreeDisplay>>)
    ensures
        agrees(
            r,
            *final(pos),
            collect_flow(
                root@,
                containers.deep_view(),
                0,
                Seq::empty(),
                replies.deep_view(),
                *old(pos) as int,
            ),
        ),
{
    let mut items: Vec<WorktreeDisplay> = Vec::new();
    let mut i: usize = 0;
    let ghost begin = *pos as int;
    assert(items.deep_view() == Seq::<WorktreeDisplayView>::empty());
    while i < containers.len()
        invariant
            i <= containers.len(),
            begin == *old(pos) as int,
            collect_flow(root@, containers.deep_view(), 0, Seq::empty(), replies.deep_view(), begin)
                == collect_flow(
                root@,
                containers.deep_view(),
                i as int,
                items.deep_view(),
                replies.deep_view(),
                *pos as int,
            ),
        decreases containers.len() - i,
    {
        assert(containers.deep_view()[i as int] == containers[i as int]@);
        match try_load_baum(replies, pos, containers[i].as_str()) {
            Progress::Done(Loaded::Value(baum)) => {
                let shown = match strip_base(containers[i].as_str(), root) {
                    Some(rel) => rel,
                    None => containers[i].clone(),
                };
                items = add_displays(shown.as_str(), &baum, items);
            },
            Progress::Done(Loaded::Broken(_)) => {},
            Progress::Ask(q) => {
                return Progress::Ask(q);
            },
            Progress::Failed(f) => {
                return Progress::Failed(f);
            },
        }
        i += 1;
    }
    Progress::Done(items)
}

/// The lines that list the worktrees from index `from` on for a human
/// reader: each container with its repository on a line of its own, an
/// empty line between containers, and each worktree below its container.
pub open spec fn listing_lines(
    items: Seq<WorktreeDisplayView>,
    from: int,
    current: Seq<char>,
    so_far: Seq<Seq<char>>,
) -> Seq<Seq<char>>
    decreases items.len() - from,
{
    if from < 0 || from >= items.len() {
        so_far
    } else {
        let item = items[from];
        let entry = "  "@ + item.branch + " -> "@ + item.path;
        let head = item.container + " ("@ + item.repo_id + ")"@;
        let lines = if item.container == current {
            so_far.push(entry)
        } else if current.len() > 0 {
            so_far.push(Seq::<char>::empty()).push(head).push(entry)
        } else {
            so_far.push(head).push(entry)
        };
        listing_lines(items, from + 1, item.container, lines)
    }
}

/// Formats the list of worktrees for a human reader.
pub fn format_listing(items: &Vec<WorktreeDisplay>) -> (lines: Vec<String>)
    ensures
        lines.deep_view() == listing_lines(items.deep_view(), 0, Seq::empty(), Seq::empty()),
{
    let mut lines: Vec<String> = Vec::new();
    let mut current = String::new();
    let mut i: usize = 0;
    assert(lines.deep_view() == Seq::<Seq<char>>::empty());
    while i < items.len()
        invariant
            i <= items.len(),
            listing_lines(items.deep_view(), 0, Seq::empty(), Seq::empty()) == listing_lines(
                items.deep_view(),
                i as int,
                current@,
                lines.deep_view(),
            ),
        decreases items.len() - i,
    {
        assert(items.deep_view()[i as int] == items[i as int]@);
        let item = &items[i];
        let ghost before = lines.deep_view();
        if !str_eq(item.container.as_str(), current.as_str()) {
            if current.as_str().unicode_len() > 0 {
                lines.push(String::new());
                assert(lines.deep_view() == before.push(Seq::<char>::empty()));
            }
            let ghost mid = lines.deep_view();
            lines.push(cat4(item.container.as_str(), " (", item.repo_id.as_str(), ")"));
            assert(lines.deep_view() == mid.push(
                item@.container + " ("@ + item@.repo_id + ")"@,
            ));
            current = item.container.clone();
        }
        let ghost late = lines.deep_view();
        lines.push(cat4("  ", item.branch.as_str(), " -> ", item.path.as_str()));
        assert(lines.deep_view() == late.push("  "@ + item@.branch + " -> "@ + item@.path));
        i += 1;
    }
    lines
}

/// Listing the worktrees of the workspace, or of the part of it below the
/// filter. The result is the list in the order in which it was shown.
pub open spec fn worktrees_flow(
    ws: WorkspaceView,
    opts: WorktreesOptionsView,
    out: Output,
    replies: Replies,
    pos: int,
) -> Outcome<Seq<WorktreeDisplayView>> {
    let rooted = match opts.filter {
        Some(filter) => validate_flow(ws.root, filter, replies, pos),
        None => Outcome::Done(ws.root, pos),
    };
    match rooted {
        Outcome::Done(search_root, p1) => match containers_step(replies, p1, search_root) {
            Outcome::Done(containers, p2) => match collect_flow(
                ws.root,
                containers,
                0,
                Seq::empty(),
                replies,
                p2,
            ) {
                Outcome::Done(found, p3) => if found.len() == 0 {
                    match info_say(out, "No worktrees found"@, replies, p3) {
                        Outcome::Done(_, p4) => Outcome::Done(found, p4),
                        Outcome::Ask(q) => Outcome::Ask(q),
                        Outcome::Failed(f) => Outcome::Failed(f),
                    }
                } else {
                    let sorted = listing_order(found);
                    let shown = if out.format == OutputFormat::Json {
                        try_step(replies, p3, RequestView::PrintWorktrees(sorted))
                    } else {
                        print_lines_flow(
                            listing_lines(sorted, 0, Seq::empty(), Seq::empty()),
                            0,
                            replies,
                            p3,
                        )
                    };
                    match shown {
                        Outcome::Done(_, p4) => Outcome::Done(sorted, p4),
                        Outcome::Ask(q) => Outcome::Ask(q),
                        Outcome::Failed(f) => Outcome::Failed(f),
                    }
                },
                Outcome::Ask(q) => Outcome::Ask(q),
                Outcome::Failed(f) => Outcome::Failed(f),
            },
            Outcome::Ask(q) => Outcome::Ask(q),
            Outcome::Failed(f) => Outcome::Failed(f),
        },
        Outcome::Ask(q) => Outcome::Ask(q),
        Outcome::Failed(f) => Outcome::Failed(f),
    }
}

fn copy_displays(items: &Vec<WorktreeDisplay>) -> (out: Vec<WorktreeDisplay>)
    ensures
        out.deep_view() == items.deep_view(),
{
    let mut out: Vec<WorktreeDisplay> = Vec::new();
    let mut i: usize = 0;
    while i < items.len()
        invariant
            i <= items.len(),
            out.deep_view() == items.deep_view().take(i as int),
        decreases items.len() - i,
    {
        let ghost before = out.deep_view();
        let item = items[i].clone();
        out.push(item);
        assert(out.deep_view() == before.push(item@));
        assert(items.deep_view().take(i + 1) == items.deep_view().take(i as int).push(
            items.deep_view()[i as int],
        ));
        i += 1;
    }
    assert(items.deep_view().take(items.len() as int) == items.deep_view());
    out
}

/// Lists all worktrees of the workspace.
pub fn worktrees(
    ws: &Workspace,
    opts: &WorktreesOptions,
    out: &Output,
    replies: &Vec<Reply>,
    pos: &mut usize,
) -> (r: Progress<Vec<WorktreeDisplay>>)
    ensures
        agrees(
            r,
            *final(pos),
            worktrees_flow(ws@, opts@, *out, replies.deep_view(), *old(pos) as int),
        ),
{
    let search_root = match &opts.filter {
        Some(filter) => match validate_workspace_path(
            ws.root.as_str(),
            filter.as_str(),
            replies,
            pos,
        ) {
            Progress::Done(p) => p,
            Progress::Ask(q) => {
                return Progress::Ask(q);
            },
            Progress::Failed(f) => {
                return Progress::Failed(f);
            },
        },
        None => ws.root.clone(),
    };
    let containers = match find_containers(search_root.as_str(), replies, pos) {
        Progress::Done(c) => c,
        Progress::Ask(q) => {
            return Progress::Ask(q);
        },
        Progress::Failed(f) => {
            return Progress::Failed(f);
        },
    };
    let found = match collect(ws.root.as_str(), &containers, replies, pos) {
        Progress::Done(f) => f,
        Progress::Ask(q) => {
            return Progress::Ask(q);
        },
        Progress::Failed(f) => {
            return Progress::Failed(f);
        },
    };
    if found.len() == 0 {
        return match say_info(out, "No worktrees found", replies, pos) {
            Progress::Done(_) => Progress::Done(found),
            Progress::Ask(q) => Progress::Ask(q),
            Progress::Failed(f) => Progress::Failed(f),
        };
    }
    let sorted = sort_displays(found);
    let shown = match out.format {
        OutputFormat::Json => try_ask(replies, pos, Request::PrintWorktrees(copy_displays(&sorted))),
        OutputFormat::Human => {
            let lines = format_listing(&sorted);
            print_lines(&lines, replies, pos)
        },
    };
    match shown {
        Progress::Done(_) => Progress::Done(sorted),
        Progress::Ask(q) => Progress::Ask(q),
        Progress::Failed(f) => Progress::Failed(f),
    }
}

} // verus!
