//! `plant`: a new baum, or more worktrees in a baum that is there.

use vstd::prelude::*;
use crate::commands::branch::tracked_entry;
use crate::commands::common::{
    bare_path_of, bare_path_or_failure, branch_mode_of, ensure_baum_id, ensure_id_flow, mode_of,
};
use crate::decimal::{decimal_text, format_decimal};
use crate::failure::{failure, ErrorKind, Failure, FailureView};
use crate::flow::{agrees, ask_stat, stat_step, Outcome, PathKind, Progress, Replies, Reply};
use crate::git::bare::{
    default_branch_flow, get_default_branch, is_partial_clone, partial_clone_flow,
};
use crate::git::worktree::{add_worktree_with_tracking_mode, tracking_flow, BranchMode};
use crate::naming::{dir_name, worktree_dir_name};
use crate::output::{json_unsupported, Output, OutputFormat};
use crate::paths::{join_path, joined};
use crate::report::{
    info_say, say_info, say_status, say_success, say_warn, status_say, success_say, warn_say,
};
use crate::split::{clone_strings, join, join_strs};
use crate::text::{cat, cat3, cat4, cat5, str_eq};
use crate::types::manifest::{
    resolution, BaumManifest, BaumView, Manifest, Resolution, ResolveResult, WorktreeEntryView,
};
use crate::workspace::baum::{
    create_baum, create_baum_flow, is_baum, is_baum_flow, load_baum, load_baum_flow, save_baum,
    save_baum_flow,
};
use crate::workspace::discovery::{collect_baum_ids, collect_ids_flow, Workspace, WorkspaceView};
use crate::workspace::gitignore::{
    add_to_gitignore_flow, add_worktree_to_gitignore, ensure_gitignore_flow,
    ensure_gitignore_section,
};
use crate::workspace::path_safety::{validate_flow, validate_workspace_path};

verus! {

/// What `plant` is asked to do.
#[derive(Debug)]
pub struct PlantOptions {
    /// The repository: an ID, an alias or a loose name. It may be empty
    /// where the container is a baum already.
    pub repo_ref: String,
    /// The container, as the user named it.
    pub container: String,
    /// The branches to create worktrees for; the default branch of the
    /// repository where there are none.
    pub branches: Vec<String>,
    /// Delete tracking branches that exist and create them anew.
    pub force: bool,
    /// Check out tracking branches that exist as they are.
    pub reuse: bool,
}

/// The value of a `PlantOptions`.
pub struct PlantOptionsView {
    pub repo_ref: Seq<char>,
    pub container: Seq<char>,
    pub branches: Seq<Seq<char>>,
    pub force: bool,
    pub reuse: bool,
}

impl View for PlantOptions {
    type V = PlantOptionsView;

    open spec fn view(&self) -> PlantOptionsView {
        PlantOptionsView {
            repo_ref: self.repo_ref@,
            container: self.container@,
            branches: self.branches.deep_view(),
            force: self.force,
            reuse: self.reuse,
        }
    }
}

impl PlantOptions {
    /// How tracking branches that exist are handled.
    pub fn branch_mode(&self) -> (mode: BranchMode)
        ensures
            mode == mode_of(self.force, self.reuse),
    {
        branch_mode_of(self.force, self.reuse)
    }
}

/// The error of a reference that matches several repositories. It lists all
/// of them, in dictionary order, one per line.
pub open spec fn ambiguous_failure(reference: Seq<char>, ids: Seq<Seq<char>>) -> FailureView {
    failure(
        ErrorKind::UserInput,
        "'"@ + reference + "' is ambiguous, could be:\n  "@ + join(ids, "\n  "@),
    )
}

/// Builds the error of a reference that matches several repositories.
pub fn ambiguous_error(reference: &str, ids: &Vec<&str>) -> (f: Failure)
    ensures
        f@ == ambiguous_failure(reference@, ids.deep_view()),
{
    let mut owned: Vec<String> = Vec::new();
    let mut i: usize = 0;
    assert(owned.deep_view() == ids.deep_view().take(0));
    while i < ids.len()
        invariant
            i <= ids.len(),
            owned.deep_view() == ids.deep_view().take(i as int),
        decreases ids.len() - i,
    {
        let ghost before = owned.deep_view();
        owned.push(ids[i].to_owned());
        assert(owned.deep_view() == before.push(ids[i as int]@));
        assert(ids.deep_view().take(i + 1) == ids.deep_view().take(i as int).push(
            ids.deep_view()[i as int],
        ));
        i += 1;
    }
    assert(ids.deep_view().take(ids.len() as int) == ids.deep_view());
    let list = join_strs(&owned, "\n  ");
    Failure::new(
        ErrorKind::UserInput,
        cat4("'", reference, "' is ambiguous, could be:\n  ", list.as_str()),
    )
}

/// The baum that `plant` works on, and whether it is new.
///
/// A container that is a baum is extended: its descriptor is loaded, and a
/// reference that resolves to another repository than the baum's is an
/// error. Any other container becomes a baum of the repository that the
/// reference resolves to. An ambiguous reference is an error in both cases.
pub open spec fn plant_target_flow(
    registry: crate::types::manifest::Registry,
    reference: Seq<char>,
    container: Seq<char>,
    replies: Replies,
    pos: int,
) -> Outcome<(BaumView, bool)> {
    match is_baum_flow(container, replies, pos) {
        Outcome::Done(planted, p1) => if planted {
            match load_baum_flow(container, replies, p1) {
                Outcome::Done(baum, p2) => if reference.len() == 0 {
                    Outcome::Done((baum, false), p2)
                } else {
                    match resolution(registry, reference) {
                        Resolution::Found(id) => if id != baum.repo_id {
                            Outcome::Failed(
                                failure(
                                    ErrorKind::Precondition,
                                    "baum at "@ + container + " is linked to "@ + baum.repo_id
                                        + ", not "@ + id,
                                ),
                            )
                        } else {
                            Outcome::Done((baum, false), p2)
                        },
                        Resolution::Ambiguous(ids) => Outcome::Failed(
                            ambiguous_failure(reference, ids),
                        ),
                        Resolution::NotFound => Outcome::Done((baum, false), p2),
                    }
                },
                Outcome::Ask(q) => Outcome::Ask(q),
                Outcome::Failed(f) => Outcome::Failed(f),
            }
        } else if reference.len() == 0 {
            Outcome::Failed(
                failure(
                    ErrorKind::UserInput,
                    "repository reference required when creating a new baum"@,
                ),
            )
        } else {
            match resolution(registry, reference) {
                Resolution::Found(id) => match create_baum_flow(container, id, replies, p1) {
                    Outcome::Done(baum, p2) => Outcome::Done((baum, true), p2),
                    Outcome::Ask(q) => Outcome::Ask(q),
                    Outcome::Failed(f) => Outcome::Failed(f),
                },
                Resolution::Ambiguous(ids) => Outcome::Failed(ambiguous_failure(reference, ids)),
                Resolution::NotFound => Outcome::Failed(
                    failure(
                        ErrorKind::Precondition,
                        "repository not found in manifest: "@ + reference,
                    ),
                ),
            }
        },
        Outcome::Ask(q) => Outcome::Ask(q),
        Outcome::Failed(f) => Outcome::Failed(f),
    }
}

fn plant_target(
    manifest: &Manifest,
    reference: &str,
    container: &str,
    replies: &Vec<Reply>,
    pos: &mut usize,
) -> (r: Progress<(BaumManifest, bool)>)
    ensures
        agrees(
            r,
            *final(pos),
            plant_target_flow(
                manifest@,
                reference@,
                container@,
                replies.deep_view(),
                *old(pos) as int,
            ),
        ),
{
    let planted = match is_baum(container, replies, pos) {
        Progress::Done(p) => p,
        Progress::Ask(q) => {
            return Progress::Ask(q);
        },
        Progress::Failed(f) => {
            return Progress::Failed(f);
        },
    };
    if planted {
        let baum = match load_baum(container, replies, pos) {
            Progress::Done(b) => b,
            Progress::Ask(q) => {
                return Progress::Ask(q);
            },
            Progress::Failed(f) => {
                return Progress::Failed(f);
            },
        };
        if reference.unicode_len() == 0 {
            return Progress::Done((baum, false));
        }
        match manifest.resolve_with_details(reference) {
            ResolveResult::Found(id) => {
                if !str_eq(id, baum.repo_id.as_str()) {
                    let head = cat4("baum at ", container, " is linked to ", baum.repo_id.as_str());
                    return Progress::Failed(
                        Failure::new(ErrorKind::Precondition, cat3(head.as_str(), ", not ", id)),
                    );
                }
                Progress::Done((baum, false))
            },
            ResolveResult::Ambiguous(ids) => Progress::Failed(ambiguous_error(reference, &ids)),
            ResolveResult::NotFound => Progress::Done((baum, false)),
        }
    } else {
        if reference.unicode_len() == 0 {
            return Progress::Failed(
                Failure::new(
                    ErrorKind::UserInput,
                    "repository reference required when creating a new baum".to_owned(),
                ),
            );
        }
        match manifest.resolve_with_details(reference) {
            ResolveResult::Found(id) => match create_baum(container, id, replies, pos) {
                Progress::Done(baum) => Progress::Done((baum, true)),
                Progress::Ask(q) => Progress::Ask(q),
                Progress::Failed(f) => Progress::Failed(f),
            },
            ResolveResult::Ambiguous(ids) => Progress::Failed(ambiguous_error(reference, &ids)),
            ResolveResult::NotFound => Progress::Failed(
                Failure::new(
                    ErrorKind::Precondition,
                    cat("repository not found in manifest: ", reference),
                ),
            ),
        }
    }
}

/// The first of the branches that the baum has a worktree for, if any.
pub open spec fn first_planted(baum: BaumView, branches: Seq<Seq<char>>, from: int) -> Option<
    Seq<char>,
>
    decreases branches.len() - from,
{
    if from < 0 || from >= branches.len() {
        None
    } else if baum.has_branch(branches[from]) {
        Some(branches[from])
    } else {
        first_planted(baum, branches, from + 1)
    }
}

fn find_planted(baum: &BaumManifest, branches: &Vec<String>) -> (r: Option<String>)
    ensures
        r.deep_view() == first_planted(baum@, branches.deep_view(), 0),
{
    let mut i: usize = 0;
    while i < branches.len()
        invariant
            i <= branches.len(),
            first_planted(baum@, branches.deep_view(), 0) == first_planted(
                baum@,
                branches.deep_view(),
                i as int,
            ),
        decreases branches.len() - i,
    {
        assert(branches.deep_view()[i as int] == branches[i as int]@);
        if baum.has_branch(branches[i].as_str()) {
            return Some(branches[i].clone());
        }
        i += 1;
    }
    None
}

/// One round of `plant`: the worktree of one branch is created on its
/// tracking branch, recorded in the descriptor, and listed in the ignore
/// file of the container.
pub open spec fn plant_round_flow(
    out: Output,
    container: Seq<char>,
    bare: Seq<char>,
    id: Seq<char>,
    mode: BranchMode,
    baum: BaumView,
    branch: Seq<char>,
    replies: Replies,
    pos: int,
) -> Outcome<BaumView> {
    let name = dir_name(branch);
    match status_say(out, "Creating worktree"@, branch + " -> "@ + name, replies, pos) {
        Outcome::Done(_, p1) => match tracking_flow(
            bare,
            joined(container, name),
            branch,
            id,
            mode,
            replies,
            p1,
        ) {
            Outcome::Done(local, p2) => match add_to_gitignore_flow(container, name, replies, p2) {
                Outcome::Done(_, p3) => Outcome::Done(
                    baum.with_worktree(tracked_entry(branch, local)),
                    p3,
                ),
                Outcome::Ask(q) => Outcome::Ask(q),
                Outcome::Failed(f) => Outcome::Failed(f),
            },
            Outcome::Ask(q) => Outcome::Ask(q),
            Outcome::Failed(f) => Outcome::Failed(f),
        },
        Outcome::Ask(q) => Outcome::Ask(q),
        Outcome::Failed(f) => Outcome::Failed(f),
    }
}

/// The rounds of `plant` for the branches from index `from` on, in order.
/// The first round that fails ends the operation, and the descriptor on
/// disk stays as it was.
pub open spec fn plant_rounds_flow(
    out: Output,
    container: Seq<char>,
    bare: Seq<char>,
    id: Seq<char>,
    mode: BranchMode,
    baum: BaumView,
    branches: Seq<Seq<char>>,
    from: int,
    replies: Replies,
    pos: int,
) -> Outcome<BaumView>
    decreases branches.len() - from,
{
    if from < 0 || from >= branches.len() {
        Outcome::Done(baum, pos)
    } else {
        match plant_round_flow(out, container, bare, id, mode, baum, branches[from], replies, pos) {
            Outcome::Done(next_baum, next) => plant_rounds_flow(
                out,
                container,
                bare,
                id,
                mode,
                next_baum,
                branches,
                from + 1,
                replies,
                next,
            ),
            Outcome::Ask(q) => Outcome::Ask(q),
            Outcome::Failed(f) => Outcome::Failed(f),
        }
    }
}

fn plant_round(
    out: &Output,
    container: &str,
    bare: &str,
    id: &str,
    mode: BranchMode,
    baum: BaumManifest,
    branch: &str,
    replies: &Vec<Reply>,
    pos: &mut usize,
) -> (r: Progress<BaumManifest>)
    ensures
        agrees(
            r,
            *final(pos),
            plant_round_flow(
                *out,
                container@,
                bare@,
                id@,
                mode,
                baum@,
                branch@,
                replies.deep_view(),
                *old(pos) as int,
            ),
        ),
{
    let mut baum = baum;
    let name = worktree_dir_name(branch);
    let target = cat3(branch, " -> ", name.as_str());
    match say_status(out, "Creating worktree", target.as_str(), replies, pos) {
        Progress::Done(_) => {},
        Progress::Ask(q) => {
            return Progress::Ask(q);
        },
        Progress::Failed(f) => {
            return Progress::Failed(f);
        },
    }
    let worktree_path = join_path(container, name.as_str());
    let local = match add_worktree_with_tracking_mode(
        bare,
        worktree_path.as_str(),
        branch,
        id,
        mode,
        replies,
        pos,
    ) {
        Progress::Done(l) => l,
        Progress::Ask(q) => {
            return Progress::Ask(q);
        },
        Progress::Failed(f) => {
            return Progress::Failed(f);
        },
    };
    match add_worktree_to_gitignore(container, name.as_str(), replies, pos) {
        Progress::Done(_) => {},
        Progress::Ask(q) => {
            return Progress::Ask(q);
        },
        Progress::Failed(f) => {
            return Progress::Failed(f);
        },
    }
    baum.add_worktree_with_local(branch, name.as_str(), local.as_str());
    Progress::Done(baum)
}

fn plant_rounds(
    out: &Output,
    container: &str,
    bare: &str,
    id: &str,
    mode: BranchMode,
    baum: BaumManifest,
    branches: &Vec<String>,
    replies: &Vec<Reply>,
    pos: &mut usize,
) -> (r: Progress<BaumManifest>)
    ensures
        agrees(
            r,
            *final(pos),
            plant_rounds_flow(
                *out,
                container@,
                bare@,
                id@,
                mode,
                baum@,
                branches.deep_view(),
                0,
                replies.deep_view(),
                *old(pos) as int,
            ),
        ),
{
    let ghost first = baum@;
    let mut current = baum;
    let mut i: usize = 0;
    let ghost begin = *pos as int;
    while i < branches.len()
        invariant
            i <= branches.len(),
            begin == *old(pos) as int,
            first == baum@,
            plant_rounds_flow(
                *out,
                container@,
                bare@,
                id@,
                mode,
                first,
                branches.deep_view(),
                0,
                replies.deep_view(),
                begin,
            ) == plant_rounds_flow(
                *out,
                container@,
                bare@,
                id@,
                mode,
                current@,
                branches.deep_view(),
                i as int,
                replies.deep_view(),
                *pos as int,
            ),
        decreases branches.len() - i,
    {
        assert(branches.deep_view()[i as int] == branches[i as int]@);
        current = match plant_round(
            out,
            container,
            bare,
            id,
            mode,
            current,
            branches[i].as_str(),
            replies,
            pos,
        ) {
            Progress::Done(b) => b,
            Progress::Ask(q) => {
                return Progress::Ask(q);
            },
            Progress::Failed(f) => {
                return Progress::Failed(f);
            },
        };
        i += 1;
    }
    Progress::Done(current)
}

/// The branches that `plant` works on: those that were named, or the
/// default branch of the repository where none was.
pub open spec fn plant_branches_flow(
    named: Seq<Seq<char>>,
    bare: Seq<char>,
    replies: Replies,
    pos: int,
) -> Outcome<Seq<Seq<char>>> {
    if named.len() == 0 {
        match default_branch_flow(bare, replies, pos) {
            Outcome::Done(branch, next) => Outcome::Done(seq![branch], next),
            Outcome::Ask(q) => Outcome::Ask(q),
            Outcome::Failed(f) => Outcome::Failed(f),
        }
    } else {
        Outcome::Done(named, pos)
    }
}

/// The warning about a partial clone, where the bare clone is one.
pub open spec fn partial_warning_flow(out: Output, bare: Seq<char>, replies: Replies, pos: int)
    -> Outcome<()> {
    match partial_clone_flow(bare, replies, pos) {
        Outcome::Done(partial, p1) => if partial {
            match warn_say(
                out,
                "Repository is a partial clone. Network access required to fetch file contents."@,
                replies,
                p1,
            ) {
                Outcome::Done(_, p2) => info_say(
                    out,
                    "Use `wald repo fetch --full` to convert to a full clone for offline access."@,
                    replies,
                    p2,
                ),
                Outcome::Ask(q) => Outcome::Ask(q),
                Outcome::Failed(f) => Outcome::Failed(f),
            }
        } else {
            Outcome::Done((), p1)
        },
        Outcome::Ask(q) => Outcome::Ask(q),
        Outcome::Failed(f) => Outcome::Failed(f),
    }
}

fn warn_if_partial(out: &Output, bare: &str, replies: &Vec<Reply>, pos: &mut usize) -> (r: Progress<
    (),
>)
    ensures
        agrees(
            r,
            *final(pos),
            partial_warning_flow(*out, bare@, replies.deep_view(), *old(pos) as int),
        ),
{
    match is_partial_clone(bare, replies, pos) {
        Progress::Done(partial) => {
            if !partial {
                return Progress::Done(());
            }
        },
        Progress::Ask(q) => {
            return Progress::Ask(q);
        },
        Progress::Failed(f) => {
            return Progress::Failed(f);
        },
    }
    match say_warn(
        out,
        "Repository is a partial clone. Network access required to fetch file contents.",
        replies,
        pos,
    ) {
        Progress::Done(_) => {},
        Progress::Ask(q) => {
            return Progress::Ask(q);
        },
        Progress::Failed(f) => {
            return Progress::Failed(f);
        },
    }
    say_info(
        out,
        "Use `wald repo fetch --full` to convert to a full clone for offline access.",
        replies,
        pos,
    )
}

/// The message that closes `plant`.
pub open spec fn planted_message(repo_id: Seq<char>, count: nat, is_new: bool) -> Seq<char> {
    if is_new {
        "Planted "@ + repo_id + " with "@ + decimal_text(count) + " worktree(s)"@
    } else {
        "Added "@ + decimal_text(count) + " worktree(s) to baum"@
    }
}

/// The part of `plant` that changes things: the baum gets its ID, every
/// branch gets its worktree, and the descriptor is saved.
pub open spec fn plant_work_flow(
    ws: WorkspaceView,
    opts: PlantOptionsView,
    out: Output,
    container: Seq<char>,
    bare: Seq<char>,
    baum: BaumView,
    is_new: bool,
    branches: Seq<Seq<char>>,
    replies: Replies,
    pos: int,
) -> Outcome<()> {
    let verb = if is_new {
        "Planting"@
    } else {
        "Adding to baum"@
    };
    match status_say(out, verb, baum.repo_id + " at "@ + opts.container, replies, pos) {
        Outcome::Done(_, p1) => match collect_ids_flow(ws.root, replies, p1) {
            Outcome::Done(taken, p2) => match ensure_id_flow(baum, taken, replies, p2) {
                Outcome::Done((with_id, id), p3) => match plant_rounds_flow(
                    out,
                    container,
                    bare,
                    id,
                    mode_of(opts.force, opts.reuse),
                    with_id,
                    branches,
                    0,
                    replies,
                    p3,
                ) {
                    Outcome::Done(grown, p4) => match save_baum_flow(container, grown, replies, p4) {
                        Outcome::Done(_, p5) => success_say(
                            out,
                            planted_message(baum.repo_id, branches.len(), is_new),
                            replies,
                            p5,
                        ),
                        Outcome::Ask(q) => Outcome::Ask(q),
                        Outcome::Failed(f) => Outcome::Failed(f),
                    },
                    Outcome::Ask(q) => Outcome::Ask(q),
                    Outcome::Failed(f) => Outcome::Failed(f),
                },
                Outcome::Ask(q) => Outcome::Ask(q),
                Outcome::Failed(f) => Outcome::Failed(f),
            },
            Outcome::Ask(q) => Outcome::Ask(q),
            Outcome::Failed(f) => Outcome::Failed(f),
        },
        Outcome::Ask(q) => Outcome::Ask(q),
        Outcome::Failed(f) => Outcome::Failed(f),
    }
}

/// The part of `plant` that looks at the repository: its bare clone must be
/// there, the branches are settled, and a branch that the baum has a
/// worktree for is refused.
pub open spec fn plant_repo_flow(
    ws: WorkspaceView,
    opts: PlantOptionsView,
    out: Output,
    container: Seq<char>,
    baum: BaumView,
    is_new: bool,
    replies: Replies,
    pos: int,
) -> Outcome<()> {
    match bare_path_or_failure(ws, baum.repo_id) {
        Err(f) => Outcome::Failed(f),
        Ok(bare) => match stat_step(replies, pos, bare) {
            Outcome::Done(kind, p1) => if kind == PathKind::Missing {
                Outcome::Failed(
                    failure(
                        ErrorKind::Filesystem,
                        "bare repo not found: "@ + bare + "\nRun `wald repo add --clone "@
                            + baum.repo_id + "` first"@,
                    ),
                )
            } else {
                match partial_warning_flow(out, bare, replies, p1) {
                    Outcome::Done(_, p2) => match plant_branches_flow(
                        opts.branches,
                        bare,
                        replies,
                        p2,
                    ) {
                        Outcome::Done(branches, p3) => {
                            let planted = if is_new {
                                None
                            } else {
                                first_planted(baum, branches, 0)
                            };
                            match planted {
                                Some(branch) => Outcome::Failed(
                                    failure(
                                        ErrorKind::Precondition,
                                        "worktree for branch '"@ + branch
                                            + "' already exists in baum at "@ + container,
                                    ),
                                ),
                                None => plant_work_flow(
                                    ws,
                                    opts,
                                    out,
                                    container,
                                    bare,
                                    baum,
                                    is_new,
                                    branches,
                                    replies,
                                    p3,
                                ),
                            }
                        },
                        Outcome::Ask(q) => Outcome::Ask(q),
                        Outcome::Failed(f) => Outcome::Failed(f),
                    },
                    Outcome::Ask(q) => Outcome::Ask(q),
                    Outcome::Failed(f) => Outcome::Failed(f),
                }
            },
            Outcome::Ask(q) => Outcome::Ask(q),
            Outcome::Failed(f) => Outcome::Failed(f),
        },
    }
}

/// Planting a baum, or adding worktrees to one.
///
/// The managed section of the workspace's ignore file is ensured, and the
/// container is validated: it must lie inside the workspace and must not
/// be a file. Then the baum is settled, the repository is looked at, and
/// the worktrees are created.
pub open spec fn plant_flow(
    ws: WorkspaceView,
    opts: PlantOptionsView,
    out: Output,
    replies: Replies,
    pos: int,
) -> Outcome<()> {
    if out.format == OutputFormat::Json {
        Outcome::Failed(json_unsupported("plant"@))
    } else {
        match ensure_gitignore_flow(ws.root, replies, pos) {
            Outcome::Done(_, p1) => match validate_flow(ws.root, opts.container, replies, p1) {
                Outcome::Done(container, p2) => match stat_step(replies, p2, container) {
                    Outcome::Done(kind, p3) => if kind == PathKind::File {
                        Outcome::Failed(
                            failure(
                                ErrorKind::Precondition,
                                "container path exists but is not a directory: "@ + container,
                            ),
                        )
                    } else {
                        match plant_target_flow(
                            ws.manifest,
                            opts.repo_ref,
                            container,
                            replies,
                            p3,
                        ) {
                            Outcome::Done((baum, is_new), p4) => plant_repo_flow(
                                ws,
                                opts,
                                out,
                                container,
                                baum,
                                is_new,
                                replies,
                                p4,
                            ),
                            Outcome::Ask(q) => Outcome::Ask(q),
                            Outcome::Failed(f) => Outcome::Failed(f),
                        }
                    },
                    Outcome::Ask(q) => Outcome::Ask(q),
                    Outcome::Failed(f) => Outcome::Failed(f),
                },
                Outcome::Ask(q) => Outcome::Ask(q),
                Outcome::Failed(f) => Outcome::Failed(f),
            },
            Outcome::Ask(q) => Outcome::Ask(q),
            Outcome::Failed(f) => Outcome::Failed(f),
        }
    }
}

fn plant_work(
    ws: &Workspace,
    opts: &PlantOptions,
    out: &Output,
    container: &str,
    bare: &str,
    baum: BaumManifest,
    is_new: bool,
    branches: &Vec<String>,
    replies: &Vec<Reply>,
    pos: &mut usize,
) -> (r: Progress<()>)
    ensures
        agrees(
            r,
            *final(pos),
            plant_work_flow(
                ws@,
                opts@,
                *out,
                container@,
                bare@,
                baum@,
                is_new,
                branches.deep_view(),
                replies.deep_view(),
                *old(pos) as int,
            ),
        ),
{
    let verb = if is_new {
        "Planting"
    } else {
        "Adding to baum"
    };
    let repo_id = baum.repo_id.clone();
    let target = cat3(repo_id.as_str(), " at ", opts.container.as_str());
    match say_status(out, verb, target.as_str(), replies, pos) {
        Progress::Done(_) => {},
        Progress::Ask(q) => {
            return Progress::Ask(q);
        },
        Progress::Failed(f) => {
            return Progress::Failed(f);
        },
    }
    let taken = match collect_baum_ids(ws.root.as_str(), replies, pos) {
        Progress::Done(t) => t,
        Progress::Ask(q) => {
            return Progress::Ask(q);
        },
        Progress::Failed(f) => {
            return Progress::Failed(f);
        },
    };
    let (with_id, id) = match ensure_baum_id(baum, &taken, replies, pos) {
        Progress::Done(pair) => pair,
        Progress::Ask(q) => {
            return Progress::Ask(q);
        },
        Progress::Failed(f) => {
            return Progress::Failed(f);
        },
    };
    let grown = match plant_rounds(
        out,
        container,
        bare,
        id.as_str(),
        opts.branch_mode(),
        with_id,
        branches,
        replies,
        pos,
    ) {
        Progress::Done(b) => b,
        Progress::Ask(q) => {
            return Progress::Ask(q);
        },
        Progress::Failed(f) => {
            return Progress::Failed(f);
        },
    };
    match save_baum(container, &grown, replies, pos) {
        Progress::Done(_) => {},
        Progress::Ask(q) => {
            return Progress::Ask(q);
        },
        Progress::Failed(f) => {
            return Progress::Failed(f);
        },
    }
    let count = format_decimal(branches.len() as u64);
    let message = if is_new {
        cat5("Planted ", repo_id.as_str(), " with ", count.as_str(), " worktree(s)")
    } else {
        cat3("Added ", count.as_str(), " worktree(s) to baum")
    };
    say_success(out, message.as_str(), replies, pos)
}

fn plant_repo(
    ws: &Workspace,
    opts: &PlantOptions,
    out: &Output,
    container: &str,
    baum: BaumManifest,
    is_new: bool,
    replies: &Vec<Reply>,
    pos: &mut usize,
) -> (r: Progress<()>)
    ensures
        agrees(
            r,
            *final(pos),
            plant_repo_flow(
                ws@,
                opts@,
                *out,
                container@,
                baum@,
                is_new,
                replies.deep_view(),
                *old(pos) as int,
            ),
        ),
{
    let bare = match bare_path_of(ws, baum.repo_id.as_str()) {
        Ok(p) => p,
        Err(f) => {
            return Progress::Failed(f);
        },
    };
    match ask_stat(replies, pos, bare.as_str()) {
        Progress::Done(kind) => {
            if kind == PathKind::Missing {
                return Progress::Failed(
                    Failure::new(
                        ErrorKind::Filesystem,
                        cat5(
                            "bare repo not found: ",
                            bare.as_str(),
                            "\nRun `wald repo add --clone ",
                            baum.repo_id.as_str(),
                            "` first",
                        ),
                    ),
                );
            }
        },
        Progress::Ask(q) => {
            return Progress::Ask(q);
        },
        Progress::Failed(f) => {
            return Progress::Failed(f);
        },
    }
    match warn_if_partial(out, bare.as_str(), replies, pos) {
        Progress::Done(_) => {},
        Progress::Ask(q) => {
            return Progress::Ask(q);
        },
        Progress::Failed(f) => {
            return Progress::Failed(f);
        },
    }
    let branches: Vec<String> = if opts.branches.len() == 0 {
        match get_default_branch(bare.as_str(), replies, pos) {
            Progress::Done(branch) => {
                let mut one: Vec<String> = Vec::new();
                one.push(branch);
                assert(one.deep_view() == seq![branch@]);
                one
            },
            Progress::Ask(q) => {
                return Progress::Ask(q);
            },
            Progress::Failed(f) => {
                return Progress::Failed(f);
            },
        }
    } else {
        clone_strings(&opts.branches)
    };
    if !is_new {
        if let Some(branch) = find_planted(&baum, &branches) {
            return Progress::Failed(
                Failure::new(
                    ErrorKind::Precondition,
                    cat4(
                        "worktree for branch '",
                        branch.as_str(),
                        "' already exists in baum at ",
                        container,
                    ),
                ),
            );
        }
    }
    plant_work(ws, opts, out, container, bare.as_str(), baum, is_new, &branches, replies, pos)
}

/// Plants a baum, or adds worktrees to a baum that is there.
pub fn plant(
    ws: &Workspace,
    opts: &PlantOptions,
    out: &Output,
    replies: &Vec<Reply>,
    pos: &mut usize,
) -> (r: Progress<()>)
    ensures
        agrees(r, *final(pos), plant_flow(ws@, opts@, *out, replies.deep_view(), *old(pos) as int)),
{
    if let Err(f) = out.require_human("plant") {
        return Progress::Failed(f);
    }
    match ensure_gitignore_section(ws.root.as_str(), replies, pos) {
        Progress::Done(_) => {},
        Progress::Ask(q) => {
            return Progress::Ask(q);
        },
        Progress::Failed(f) => {
            return Progress::Failed(f);
        },
    }
    let container = match validate_workspace_path(
        ws.root.as_str(),
        opts.container.as_str(),
        replies,
        pos,
    ) {
        Progress::Done(c) => c,
        Progress::Ask(q) => {
            return Progress::Ask(q);
        },
        Progress::Failed(f) => {
            return Progress::Failed(f);
        },
    };
    match ask_stat(replies, pos, container.as_str()) {
        Progress::Done(kind) => {
            if kind == PathKind::File {
                return Progress::Failed(
                    Failure::new(
                        ErrorKind::Precondition,
                        cat("container path exists but is not a directory: ", container.as_str()),
                    ),
                );
            }
        },
        Progress::Ask(q) => {
            return Progress::Ask(q);
        },
        Progress::Failed(f) => {
            return Progress::Failed(f);
        },
    }
    let (baum, is_new) = match plant_target(
        &ws.manifest,
        opts.repo_ref.as_str(),
        container.as_str(),
        replies,
        pos,
    ) {
        Progress::Done(pair) => pair,
        Progress::Ask(q) => {
            return Progress::Ask(q);
        },
        Progress::Failed(f) => {
            return Progress::Failed(f);
        },
    };
    plant_repo(ws, opts, out, container.as_str(), baum, is_new, replies, pos)
}

/// A round that succeeds records the branch with the directory named after
/// it and with the tracking branch of the baum and the branch, and changes
/// nothing else of the descriptor.
pub proof fn lemma_round_records_branch(
    out: Output,
    container: Seq<char>,
    bare: Seq<char>,
    id: Seq<char>,
    mode: BranchMode,
    baum: BaumView,
    branch: Seq<char>,
    replies: Replies,
    pos: int,
)
    ensures
        plant_round_flow(out, container, bare, id, mode, baum, branch, replies, pos) matches Outcome::Done(
            grown,
            _,
        ) ==> grown == baum.with_worktree(
            WorktreeEntryView {
                branch,
                path: dir_name(branch),
                local_branch: Some(crate::id::tracking_name(id, branch)),
            },
        ),
{
}

/// A container that leaves the workspace stops `plant` at once: where the
/// validation of the container fails, `plant` fails with the failure of the
/// validation, and nothing is asked about the baum or the repository.
pub proof fn lemma_plant_stops_at_escape(
    ws: WorkspaceView,
    opts: PlantOptionsView,
    out: Output,
    replies: Replies,
    pos: int,
)
    requires
        out.format != OutputFormat::Json,
    ensures
        ensure_gitignore_flow(ws.root, replies, pos) matches Outcome::Done(_, p1) ==> (
        validate_flow(ws.root, opts.container, replies, p1) matches Outcome::Failed(f)
            ==> plant_flow(ws, opts, out, replies, pos) == Outcome::<()>::Failed(f)),
{
}

/// An ambiguous reference is never planted. Where the reference matches
/// several repositories, no baum is settled; and for a container that is no
/// baum yet the failure lists all of them, in strictly ascending order, and
/// comes before any descriptor is asked for.
pub proof fn lemma_plant_refuses_ambiguous(
    registry: crate::types::manifest::Registry,
    reference: Seq<char>,
    container: Seq<char>,
    replies: Replies,
    pos: int,
)
    requires
        crate::types::manifest::distinct_keys(registry),
        reference.len() > 0,
    ensures
        resolution(registry, reference) matches Resolution::Ambiguous(ids) ==> {
            &&& crate::types::manifest::strictly_ascending(ids)
            &&& ids.to_set() == crate::types::manifest::first_layer(registry, reference)
            &&& !(plant_target_flow(registry, reference, container, replies, pos) is Done)
            &&& is_baum_flow(container, replies, pos) matches Outcome::Done(false, _)
                ==> plant_target_flow(registry, reference, container, replies, pos)
                == Outcome::<(BaumView, bool)>::Failed(ambiguous_failure(reference, ids))
        },
{
    crate::types::manifest::lemma_resolution_unique(registry, reference);
}

} // verus!
