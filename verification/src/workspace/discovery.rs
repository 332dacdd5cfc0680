//! Finding a workspace, loading it, and listing what it holds.
//!
//! A workspace is a directory with a subdirectory `.wald`, which holds the
//! registry, the configuration, the sync state and the bare clones.

use vstd::prelude::*;
use crate::failure::{failure, ErrorKind, Failure, FailureView};
use crate::flow::{
    agrees, ask_done, ask_names, ask_stat, caused, caused_failure, done_step, driver_failure,
    driver_fault, exchange, names_step, reply_at, stat_step, try_load_baum, try_load_baum_step,
    FoundBaum, FoundBaumView, Loaded, LoadedView, Outcome, PathKind, Progress, Replies, Reply,
    ReplyView, Request, RequestView,
};
use crate::paths::{
    components, components_of, join_path, joined, render, render_components, same_path,
    same_place, Component, ComponentView,
};
use crate::string_set::StringSet;
use crate::text::{cat, cat3, ends_with, has_suffix, starts_with, str_eq, to_chars};
use crate::types::config::Config;
use crate::types::manifest::{resolved, Manifest, Registry};
use crate::types::repo_id::{parsed_repo_id, RepoId, RepoIdError, RepoIdErrorView};
use crate::types::state::SyncState;
use crate::workspace::gitignore::{ensure_gitignore_flow, ensure_gitignore_section};
use crate::workspace::path_safety::{ask_cwd, cwd_step};

verus! {

/// The name of the directory that holds the state of a workspace.
pub const WALD_DIR: &'static str = ".wald";

/// The error of a directory that is in no workspace.
pub open spec fn not_a_workspace(start: Seq<char>) -> FailureView {
    failure(
        ErrorKind::Integrity,
        "not a wald workspace (no .wald/ directory found in "@ + start + " or any parent)"@,
    )
}

/// The nearest directory at or above the first `k` components that has a
/// directory `.wald`, if there is one. The walk asks for one directory
/// after the other, upwards, and ends at the root or where nothing is left.
pub open spec fn root_above(comps: Seq<ComponentView>, replies: Replies, pos: int, k: int)
    -> Outcome<Option<Seq<char>>>
    decreases k,
{
    let current = render(comps.take(k));
    match stat_step(replies, pos, joined(current, ".wald"@)) {
        Outcome::Done(kind, next) => if kind == PathKind::Dir {
            Outcome::Done(Some(current), next)
        } else if k <= 0 || (k == 1 && comps[0] is Root) {
            Outcome::Done(None, next)
        } else {
            root_above(comps, replies, next, k - 1)
        },
        Outcome::Ask(q) => Outcome::Ask(q),
        Outcome::Failed(f) => Outcome::Failed(f),
    }
}

/// The root of the workspace that holds `start`, if there is one.
pub open spec fn find_root_flow(start: Seq<char>, replies: Replies, pos: int) -> Outcome<
    Option<Seq<char>>,
> {
    root_above(components(start), replies, pos, components(start).len() as int)
}

/// The root of the workspace that holds `start`, which must be in one.
pub open spec fn root_from_flow(start: Seq<char>, replies: Replies, pos: int) -> Outcome<Seq<char>> {
    match find_root_flow(start, replies, pos) {
        Outcome::Done(Some(root), next) => Outcome::Done(root, next),
        Outcome::Done(None, _) => Outcome::Failed(not_a_workspace(start)),
        Outcome::Ask(q) => Outcome::Ask(q),
        Outcome::Failed(f) => Outcome::Failed(f),
    }
}

fn copy_components(comps: &Vec<Component>, k: usize) -> (out: Vec<Component>)
    requires
        k <= comps.len(),
    ensures
        out.deep_view() == comps.deep_view().take(k as int),
{
    let mut out: Vec<Component> = Vec::new();
    let mut i: usize = 0;
    assert(out.deep_view() == comps.deep_view().take(0));
    while i < k
        invariant
            i <= k <= comps.len(),
            out.deep_view() == comps.deep_view().take(i as int),
        decreases k - i,
    {
        let ghost before = out.deep_view();
        let c = comps[i].clone();
        out.push(c);
        assert(out.deep_view() == before.push(c@));
        assert(comps.deep_view().take(i + 1) == comps.deep_view().take(i as int).push(
            comps.deep_view()[i as int],
        ));
        i += 1;
    }
    out
}

/// Looks for the root of the workspace that holds `start`.
pub fn find_root(start: &str, replies: &Vec<Reply>, pos: &mut usize) -> (r: Progress<
    Option<String>,
>)
    ensures
        agrees(r, *final(pos), find_root_flow(start@, replies.deep_view(), *old(pos) as int)),
{
    let comps = components_of(start);
    let mut k: usize = comps.len();
    let ghost all = comps.deep_view();
    let ghost rs = replies.deep_view();
    let ghost begin = *pos as int;
    loop
        invariant
            k <= comps.len(),
            begin == *old(pos) as int,
            all == comps.deep_view(),
            all == components(start@),
            rs == replies.deep_view(),
            root_above(all, rs, begin, comps.len() as int) == root_above(
                all,
                rs,
                *pos as int,
                k as int,
            ),
        decreases k,
    {
        let prefix = copy_components(&comps, k);
        let current = render_components(&prefix);
        let probe = join_path(current.as_str(), ".wald");
        match ask_stat(replies, pos, probe.as_str()) {
            Progress::Done(kind) => {
                if kind == PathKind::Dir {
                    return Progress::Done(Some(current));
                }
                if k == 0 {
                    return Progress::Done(None);
                }
                assert(all[0] == comps[0]@);
                let at_root = k == 1 && match &comps[0] {
                    Component::Root => true,
                    _ => false,
                };
                if at_root {
                    return Progress::Done(None);
                }
            },
            Progress::Ask(q) => {
                return Progress::Ask(q);
            },
            Progress::Failed(f) => {
                return Progress::Failed(f);
            },
        }
        k -= 1;
    }
}

/// Finds the root of the workspace that holds `start`.
pub fn find_workspace_root_from(start: &str, replies: &Vec<Reply>, pos: &mut usize) -> (r: Progress<
    String,
>)
    ensures
        agrees(r, *final(pos), root_from_flow(start@, replies.deep_view(), *old(pos) as int)),
{
    match find_root(start, replies, pos) {
        Progress::Done(Some(root)) => Progress::Done(root),
        Progress::Done(None) => Progress::Failed(
            Failure::new(
                ErrorKind::Integrity,
                cat3(
                    "not a wald workspace (no .wald/ directory found in ",
                    start,
                    " or any parent)",
                ),
            ),
        ),
        Progress::Ask(q) => Progress::Ask(q),
        Progress::Failed(f) => Progress::Failed(f),
    }
}

/// The root of the workspace that holds the current directory.
pub open spec fn workspace_root_flow(replies: Replies, pos: int) -> Outcome<Seq<char>> {
    match cwd_step(replies, pos) {
        Outcome::Done(cwd, next) => root_from_flow(cwd, replies, next),
        Outcome::Ask(q) => Outcome::Ask(q),
        Outcome::Failed(f) => Outcome::Failed(f),
    }
}

/// Finds the root of the workspace that holds the current directory.
pub fn find_workspace_root(replies: &Vec<Reply>, pos: &mut usize) -> (r: Progress<String>)
    ensures
        agrees(r, *final(pos), workspace_root_flow(replies.deep_view(), *old(pos) as int)),
{
    match ask_cwd(replies, pos) {
        Progress::Done(cwd) => find_workspace_root_from(cwd.as_str(), replies, pos),
        Progress::Ask(q) => Progress::Ask(q),
        Progress::Failed(f) => Progress::Failed(f),
    }
}

/// A workspace: where it is, and the documents that it holds.
#[derive(Debug)]
pub struct Workspace {
    /// The directory that holds `.wald`.
    pub root: String,
    /// The central registry.
    pub manifest: Manifest,
    /// The configuration.
    pub config: Config,
    /// The sync state.
    pub state: SyncState,
}

/// The value of a `Workspace`.
pub struct WorkspaceView {
    pub root: Seq<char>,
    pub manifest: Registry,
    pub config: Config,
    pub state: Option<Seq<char>>,
}

impl View for Workspace {
    type V = WorkspaceView;

    open spec fn view(&self) -> WorkspaceView {
        WorkspaceView {
            root: self.root@,
            manifest: self.manifest@,
            config: self.config,
            state: self.state@,
        }
    }
}

impl DeepView for Workspace {
    type V = WorkspaceView;

    open spec fn deep_view(&self) -> WorkspaceView {
        self@
    }
}

impl WorkspaceView {
    /// The directory `.wald` of the workspace.
    pub open spec fn wald_dir(self) -> Seq<char> {
        joined(self.root, ".wald"@)
    }

    /// The directory that holds the bare clones.
    pub open spec fn repos_dir(self) -> Seq<char> {
        joined(self.wald_dir(), "repos"@)
    }

    /// The file of the registry.
    pub open spec fn manifest_path(self) -> Seq<char> {
        joined(self.wald_dir(), "manifest.yaml"@)
    }

    /// The file of the configuration.
    pub open spec fn config_path(self) -> Seq<char> {
        joined(self.wald_dir(), "config.yaml"@)
    }

    /// The file of the sync state.
    pub open spec fn state_path(self) -> Seq<char> {
        joined(self.wald_dir(), "state.yaml"@)
    }

    /// The path of the bare clone of a repository, for an ID that parses.
    pub open spec fn bare_repo_path(self, repo_id: Seq<char>) -> Result<Seq<char>, RepoIdErrorView> {
        match parsed_repo_id(repo_id) {
            Ok(id) => Ok(joined(self.repos_dir(), id.bare_path())),
            Err(e) => Err(e),
        }
    }
}

/// The registry of a workspace, which must be there.
pub open spec fn manifest_step(replies: Replies, pos: int, path: Seq<char>) -> Outcome<Registry> {
    match reply_at(replies, pos) {
        None => Outcome::Ask(RequestView::LoadManifest(path)),
        Some(ReplyView::Manifest(m)) => Outcome::Done(m, pos + 1),
        Some(ReplyView::Failed(cause)) => Outcome::Failed(
            caused(ErrorKind::Integrity, "failed to load manifest"@, cause),
        ),
        Some(_) => Outcome::Failed(driver_fault()),
    }
}

/// The configuration of a workspace; the default where none can be read.
pub open spec fn config_step(replies: Replies, pos: int, path: Seq<char>) -> Outcome<Config> {
    match reply_at(replies, pos) {
        None => Outcome::Ask(RequestView::LoadConfig(path)),
        Some(ReplyView::Config(c)) => Outcome::Done(c, pos + 1),
        Some(_) => Outcome::Done(
            Config {
                default_lfs: crate::types::manifest::LfsPolicy::Minimal,
                default_depth: crate::types::manifest::DepthPolicy::Depth(100),
                default_filter: crate::types::manifest::FilterPolicy::NoFilter,
            },
            pos + 1,
        ),
    }
}

/// The sync state of a workspace; none where none can be read.
pub open spec fn state_step(replies: Replies, pos: int, path: Seq<char>) -> Outcome<
    Option<Seq<char>>,
> {
    match reply_at(replies, pos) {
        None => Outcome::Ask(RequestView::LoadState(path)),
        Some(ReplyView::State(s)) => Outcome::Done(s, pos + 1),
        Some(_) => Outcome::Done(None, pos + 1),
    }
}

/// Loading the workspace at `root`: its registry, its configuration and its
/// sync state.
pub open spec fn load_from_flow(root: Seq<char>, replies: Replies, pos: int) -> Outcome<
    WorkspaceView,
> {
    let wald = joined(root, ".wald"@);
    match manifest_step(replies, pos, joined(wald, "manifest.yaml"@)) {
        Outcome::Done(manifest, p1) => match config_step(
            replies,
            p1,
            joined(wald, "config.yaml"@),
        ) {
            Outcome::Done(config, p2) => match state_step(replies, p2, joined(wald, "state.yaml"@)) {
                Outcome::Done(state, p3) => Outcome::Done(
                    WorkspaceView { root, manifest, config, state },
                    p3,
                ),
                Outcome::Ask(q) => Outcome::Ask(q),
                Outcome::Failed(f) => Outcome::Failed(f),
            },
            Outcome::Ask(q) => Outcome::Ask(q),
            Outcome::Failed(f) => Outcome::Failed(f),
        },
        Outcome::Ask(q) => Outcome::Ask(q),
        Outcome::Failed(f) => Outcome::Failed(f),
    }
}

/// Loading the workspace that holds the current directory.
pub open spec fn load_flow(replies: Replies, pos: int) -> Outcome<WorkspaceView> {
    match workspace_root_flow(replies, pos) {
        Outcome::Done(root, next) => load_from_flow(root, replies, next),
        Outcome::Ask(q) => Outcome::Ask(q),
        Outcome::Failed(f) => Outcome::Failed(f),
    }
}

/// The IDs of the baums that have one, each once, in the order in which
/// the baums were found.
pub open spec fn ids_of(found: Seq<FoundBaumView>) -> Seq<Seq<char>>
    decreases found.len(),
{
    if found.len() == 0 {
        Seq::<Seq<char>>::empty()
    } else {
        let init = ids_of(found.drop_last());
        match found.last().baum.id {
            Some(id) => if init.contains(id) {
                init
            } else {
                init.push(id)
            },
            None => init,
        }
    }
}

/// The containers of a workspace, as the walk of the driver finds them.
pub open spec fn containers_step(replies: Replies, pos: int, root: Seq<char>) -> Outcome<
    Seq<Seq<char>>,
> {
    names_step(replies, pos, RequestView::FindContainers(root), "failed to walk "@ + root)
}

/// The baums among the containers from index `from` on: those whose
/// descriptor can be read, after those that were found before.
pub open spec fn load_each_flow(
    containers: Seq<Seq<char>>,
    from: int,
    so_far: Seq<FoundBaumView>,
    replies: Replies,
    pos: int,
) -> Outcome<Seq<FoundBaumView>>
    decreases containers.len() - from,
{
    if from < 0 || from >= containers.len() {
        Outcome::Done(so_far, pos)
    } else {
        match try_load_baum_step(replies, pos, containers[from]) {
            Outcome::Done(LoadedView::Value(baum), next) => load_each_flow(
                containers,
                from + 1,
                so_far.push(FoundBaumView { path: containers[from], baum }),
                replies,
                next,
            ),
            Outcome::Done(LoadedView::Broken(_), next) => load_each_flow(
                containers,
                from + 1,
                so_far,
                replies,
                next,
            ),
            Outcome::Ask(q) => Outcome::Ask(q),
            Outcome::Failed(f) => Outcome::Failed(f),
        }
    }
}

/// The baums of a workspace: every directory that holds a descriptor which
/// can be read, with that descriptor.
pub open spec fn find_baums_step(replies: Replies, pos: int, root: Seq<char>) -> Outcome<
    Seq<FoundBaumView>,
> {
    match containers_step(replies, pos, root) {
        Outcome::Done(containers, next) => load_each_flow(
            containers,
            0,
            Seq::empty(),
            replies,
            next,
        ),
        Outcome::Ask(q) => Outcome::Ask(q),
        Outcome::Failed(f) => Outcome::Failed(f),
    }
}

/// The IDs of the baums of a workspace.
pub open spec fn collect_ids_flow(root: Seq<char>, replies: Replies, pos: int) -> Outcome<
    Seq<Seq<char>>,
> {
    match find_baums_step(replies, pos, root) {
        Outcome::Done(found, next) => Outcome::Done(ids_of(found), next),
        Outcome::Ask(q) => Outcome::Ask(q),
        Outcome::Failed(f) => Outcome::Failed(f),
    }
}

/// Whether a walk that looks for baums goes into a directory entry, and
/// reports it. It stays out of `.git`, of the bare clones in `.wald/repos`,
/// of worktree directories `_*.wt`, and of `.baum` itself.
pub open spec fn walk_enters(name: Seq<char>, parent_name: Seq<char>, is_dir: bool) -> bool {
    &&& name != ".git"@
    &&& !(name == "repos"@ && parent_name == ".wald"@)
    &&& !(is_dir && starts_with(name, "_"@) && ends_with(name, ".wt"@))
    &&& name != ".baum"@
}

/// Decides whether the walk goes into an entry, from the name of the entry,
/// the name of the directory that holds it, and whether it is a directory.
pub fn walk_filter(name: &str, parent_name: &str, is_dir: bool) -> (r: bool)
    ensures
        r == walk_enters(name@, parent_name@, is_dir),
{
    if str_eq(name, ".git") {
        return false;
    }
    if str_eq(name, "repos") && str_eq(parent_name, ".wald") {
        return false;
    }
    if is_dir {
        let n = to_chars(name);
        let head = to_chars("_");
        let tail = to_chars(".wt");
        if crate::text::has_prefix(&n, &head) && has_suffix(&n, &tail) {
            return false;
        }
    }
    !str_eq(name, ".baum")
}

/// The IDs of the baums that have one.
pub fn baum_ids(found: &Vec<FoundBaum>) -> (ids: StringSet)
    ensures
        ids.listing() == ids_of(found.deep_view()),
{
    let mut ids = StringSet::new();
    let mut i: usize = 0;
    let ghost all = found.deep_view();
    assert(all.take(0) == Seq::<FoundBaumView>::empty());
    while i < found.len()
        invariant
            i <= found.len(),
            all == found.deep_view(),
            ids.listing() == ids_of(all.take(i as int)),
        decreases found.len() - i,
    {
        assert(all.take(i + 1).drop_last() == all.take(i as int));
        assert(all.take(i + 1).last() == found[i as int]@);
        proof {
            ids.lemma_listing();
        }
        if let Some(id) = &found[i].baum.id {
            ids.insert(id.clone());
        }
        i += 1;
    }
    assert(all.take(all.len() as int) == all);
    ids
}

/// Finds the containers of a workspace: the directories that hold a
/// directory `.baum`.
pub fn find_containers(workspace_root: &str, replies: &Vec<Reply>, pos: &mut usize) -> (r: Progress<
    Vec<String>,
>)
    ensures
        agrees(
            r,
            *final(pos),
            containers_step(replies.deep_view(), *old(pos) as int, workspace_root@),
        ),
{
    let context = cat("failed to walk ", workspace_root);
    ask_names(
        replies,
        pos,
        Request::FindContainers(workspace_root.to_owned()),
        context.as_str(),
    )
}

/// Finds the baums of a workspace.
pub fn find_all_baums(workspace_root: &str, replies: &Vec<Reply>, pos: &mut usize) -> (r: Progress<
    Vec<FoundBaum>,
>)
    ensures
        agrees(
            r,
            *final(pos),
            find_baums_step(replies.deep_view(), *old(pos) as int, workspace_root@),
        ),
{
    let containers = match find_containers(workspace_root, replies, pos) {
        Progress::Done(c) => c,
        Progress::Ask(q) => {
            return Progress::Ask(q);
        },
        Progress::Failed(f) => {
            return Progress::Failed(f);
        },
    };
    let mut found: Vec<FoundBaum> = Vec::new();
    let mut i: usize = 0;
    let ghost begin = *pos as int;
    assert(found.deep_view() == Seq::<FoundBaumView>::empty());
    while i < containers.len()
        invariant
            i <= containers.len(),
            load_each_flow(containers.deep_view(), 0, Seq::empty(), replies.deep_view(), begin)
                == load_each_flow(
                containers.deep_view(),
                i as int,
                found.deep_view(),
                replies.deep_view(),
                *pos as int,
            ),
            find_baums_step(replies.deep_view(), *old(pos) as int, workspace_root@)
                == load_each_flow(
                containers.deep_view(),
                0,
                Seq::empty(),
                replies.deep_view(),
                begin,
            ),
        decreases containers.len() - i,
    {
        assert(containers.deep_view()[i as int] == containers[i as int]@);
        match try_load_baum(replies, pos, containers[i].as_str()) {
            Progress::Done(Loaded::Value(baum)) => {
                let ghost before = found.deep_view();
                let item = FoundBaum { path: containers[i].clone(), baum };
                found.push(item);
                assert(found.deep_view() == before.push(item@));
            },
            Progress::Done(Loaded::Broken(_)) => {},
            Progress::Ask(q) => {
                return Progress::Ask(q);
            },
            Progress::Failed(f) => {
                return Progress::Failed(f);
            },
        }
        i += 1;
    }
    Progress::Done(found)
}

/// Collects the IDs of the baums of a workspace.
pub fn collect_baum_ids(workspace_root: &str, replies: &Vec<Reply>, pos: &mut usize) -> (r: Progress<
    StringSet,
>)
    ensures
        agrees(
            r,
            *final(pos),
            collect_ids_flow(workspace_root@, replies.deep_view(), *old(pos) as int),
        ),
{
    match find_all_baums(workspace_root, replies, pos) {
        Progress::Done(found) => Progress::Done(baum_ids(&found)),
        Progress::Ask(q) => Progress::Ask(q),
        Progress::Failed(f) => Progress::Failed(f),
    }
}

impl Workspace {
    /// Loads the workspace that holds the current directory.
    pub fn load(replies: &Vec<Reply>, pos: &mut usize) -> (r: Progress<Workspace>)
        ensures
            agrees(r, *final(pos), load_flow(replies.deep_view(), *old(pos) as int)),
    {
        match find_workspace_root(replies, pos) {
            Progress::Done(root) => Workspace::load_from(root, replies, pos),
            Progress::Ask(q) => Progress::Ask(q),
            Progress::Failed(f) => Progress::Failed(f),
        }
    }

    /// Loads the workspace at `root`.
    pub fn load_from(root: String, replies: &Vec<Reply>, pos: &mut usize) -> (r: Progress<Workspace>)
        ensures
            agrees(r, *final(pos), load_from_flow(root@, replies.deep_view(), *old(pos) as int)),
    {
        let wald = join_path(root.as_str(), ".wald");
        let manifest = match exchange(
            replies,
            pos,
            Request::LoadManifest(join_path(wald.as_str(), "manifest.yaml")),
        ) {
            Err(q) => {
                return Progress::Ask(q);
            },
            Ok(Reply::Manifest(m)) => m.clone(),
            Ok(Reply::Failed(cause)) => {
                return Progress::Failed(
                    caused_failure(ErrorKind::Integrity, "failed to load manifest", cause.as_str()),
                );
            },
            Ok(_) => {
                return Progress::Failed(driver_failure());
            },
        };
        let config = match exchange(
            replies,
            pos,
            Request::LoadConfig(join_path(wald.as_str(), "config.yaml")),
        ) {
            Err(q) => {
                return Progress::Ask(q);
            },
            Ok(Reply::Config(c)) => *c,
            Ok(_) => Config::default(),
        };
        let state = match exchange(
            replies,
            pos,
            Request::LoadState(join_path(wald.as_str(), "state.yaml")),
        ) {
            Err(q) => {
                return Progress::Ask(q);
            },
            Ok(Reply::State(s)) => s.clone(),
            Ok(_) => SyncState::default(),
        };
        Progress::Done(Workspace { root, manifest, config, state })
    }

    /// Initialises a workspace at `root`: the directory `.wald` with the
    /// directory for bare clones, an empty registry, the default
    /// configuration and an empty sync state, and the managed section of
    /// the ignore file.
    pub fn init(root: &str, force: bool, replies: &Vec<Reply>, pos: &mut usize) -> (r: Progress<()>)
        ensures
            agrees(r, *final(pos), init_flow(root@, force, replies.deep_view(), *old(pos) as int)),
    {
        let wald = join_path(root, ".wald");
        match find_root(root, replies, pos) {
            Progress::Done(Some(existing)) => {
                if !same_path(existing.as_str(), root) {
                    return Progress::Failed(
                        Failure::new(
                            ErrorKind::Precondition,
                            cat(
                                "cannot create nested workspace: already inside workspace at ",
                                existing.as_str(),
                            ),
                        ),
                    );
                }
                if !force {
                    return Progress::Failed(
                        Failure::new(
                            ErrorKind::Precondition,
                            cat3("workspace already exists at ", root, " (use --force to recreate)"),
                        ),
                    );
                }
            },
            Progress::Done(None) => {},
            Progress::Ask(q) => {
                return Progress::Ask(q);
            },
            Progress::Failed(f) => {
                return Progress::Failed(f);
            },
        }
        match ask_stat(replies, pos, wald.as_str()) {
            Progress::Done(kind) => {
                if kind != PathKind::Missing {
                    if !force {
                        return Progress::Failed(
                            Failure::new(
                                ErrorKind::Precondition,
                                cat3(".wald/ already exists at ", root, " (use --force to recreate)"),
                            ),
                        );
                    }
                    let context = cat("failed to remove existing .wald/: ", wald.as_str());
                    match ask_done(
                        replies,
                        pos,
                        Request::RemoveTree(wald.clone()),
                        ErrorKind::Filesystem,
                        context.as_str(),
                    ) {
                        Progress::Done(_) => {},
                        Progress::Ask(q) => {
                            return Progress::Ask(q);
                        },
                        Progress::Failed(f) => {
                            return Progress::Failed(f);
                        },
                    }
                }
            },
            Progress::Ask(q) => {
                return Progress::Ask(q);
            },
            Progress::Failed(f) => {
                return Progress::Failed(f);
            },
        }
        let context = cat("failed to create .wald/: ", wald.as_str());
        match ask_done(
            replies,
            pos,
            Request::MakeDirs(wald.clone()),
            ErrorKind::Filesystem,
            context.as_str(),
        ) {
            Progress::Done(_) => {},
            Progress::Ask(q) => {
                return Progress::Ask(q);
            },
            Progress::Failed(f) => {
                return Progress::Failed(f);
            },
        }
        match ask_done(
            replies,
            pos,
            Request::MakeDirs(join_path(wald.as_str(), "repos")),
            ErrorKind::Filesystem,
            "failed to create .wald/repos/",
        ) {
            Progress::Done(_) => {},
            Progress::Ask(q) => {
                return Progress::Ask(q);
            },
            Progress::Failed(f) => {
                return Progress::Failed(f);
            },
        }
        match ask_done(
            replies,
            pos,
            Request::SaveManifest(join_path(wald.as_str(), "manifest.yaml"), Manifest::default()),
            ErrorKind::Filesystem,
            "failed to write manifest",
        ) {
            Progress::Done(_) => {},
            Progress::Ask(q) => {
                return Progress::Ask(q);
            },
            Progress::Failed(f) => {
                return Progress::Failed(f);
            },
        }
        match ask_done(
            replies,
            pos,
            Request::SaveConfig(join_path(wald.as_str(), "config.yaml"), Config::default()),
            ErrorKind::Filesystem,
            "failed to write config",
        ) {
            Progress::Done(_) => {},
            Progress::Ask(q) => {
                return Progress::Ask(q);
            },
            Progress::Failed(f) => {
                return Progress::Failed(f);
            },
        }
        match ask_done(
            replies,
            pos,
            Request::SaveState(join_path(wald.as_str(), "state.yaml"), SyncState::default()),
            ErrorKind::Filesystem,
            "failed to write state",
        ) {
            Progress::Done(_) => {},
            Progress::Ask(q) => {
                return Progress::Ask(q);
            },
            Progress::Failed(f) => {
                return Progress::Failed(f);
            },
        }
        ensure_gitignore_section(root, replies, pos)
    }

    /// The directory `.wald` of the workspace.
    pub fn wald_dir(&self) -> (out: String)
        ensures
            out@ == self@.wald_dir(),
    {
        join_path(self.root.as_str(), ".wald")
    }

    /// The directory that holds the bare clones.
    pub fn repos_dir(&self) -> (out: String)
        ensures
            out@ == self@.repos_dir(),
    {
        join_path(self.wald_dir().as_str(), "repos")
    }

    /// The file of the registry.
    pub fn manifest_path(&self) -> (out: String)
        ensures
            out@ == self@.manifest_path(),
    {
        join_path(self.wald_dir().as_str(), "manifest.yaml")
    }

    /// The file of the configuration.
    pub fn config_path(&self) -> (out: String)
        ensures
            out@ == self@.config_path(),
    {
        join_path(self.wald_dir().as_str(), "config.yaml")
    }

    /// The file of the sync state.
    pub fn state_path(&self) -> (out: String)
        ensures
            out@ == self@.state_path(),
    {
        join_path(self.wald_dir().as_str(), "state.yaml")
    }

    /// Writes the registry to its file.
    pub fn save_manifest(&self, replies: &Vec<Reply>, pos: &mut usize) -> (r: Progress<()>)
        ensures
            agrees(r, *final(pos), save_manifest_flow(self@, replies.deep_view(), *old(pos) as int)),
    {
        let path = self.manifest_path();
        let context = cat("failed to write manifest: ", path.as_str());
        ask_done(
            replies,
            pos,
            Request::SaveManifest(path, self.manifest.clone()),
            ErrorKind::Filesystem,
            context.as_str(),
        )
    }

    /// Writes the sync state to its file.
    pub fn save_state(&self, replies: &Vec<Reply>, pos: &mut usize) -> (r: Progress<()>)
        ensures
            agrees(r, *final(pos), save_state_flow(self@, replies.deep_view(), *old(pos) as int)),
    {
        let path = self.state_path();
        let context = cat("failed to write state: ", path.as_str());
        ask_done(
            replies,
            pos,
            Request::SaveState(path, self.state.clone()),
            ErrorKind::Filesystem,
            context.as_str(),
        )
    }

    /// The path of the bare clone of a repository.
    pub fn bare_repo_path(&self, repo_id: &str) -> (r: Result<String, RepoIdError>)
        ensures
            match r {
                Ok(p) => self@.bare_repo_path(repo_id@) == Ok::<Seq<char>, RepoIdErrorView>(p@),
                Err(e) => self@.bare_repo_path(repo_id@) == Err::<Seq<char>, RepoIdErrorView>(e@),
            },
    {
        match RepoId::parse(repo_id) {
            Ok(id) => {
                let rel = id.to_bare_path();
                Ok(join_path(self.repos_dir().as_str(), rel.as_str()))
            },
            Err(e) => Err(e),
        }
    }

    /// Checks whether the bare clone of a repository is there.
    pub fn has_bare_repo(&self, repo_id: &str, replies: &Vec<Reply>, pos: &mut usize) -> (r: Progress<
        bool,
    >)
        ensures
            agrees(
                r,
                *final(pos),
                has_bare_repo_flow(self@, repo_id@, replies.deep_view(), *old(pos) as int),
            ),
    {
        match self.bare_repo_path(repo_id) {
            Ok(path) => match ask_stat(replies, pos, path.as_str()) {
                Progress::Done(kind) => Progress::Done(kind == PathKind::Dir),
                Progress::Ask(q) => Progress::Ask(q),
                Progress::Failed(f) => Progress::Failed(f),
            },
            Err(_) => Progress::Done(false),
        }
    }

    /// Resolves a reference, an ID or an alias or a loose name, to the ID
    /// of a registered repository.
    pub fn resolve_repo<'a>(&'a self, reference: &str) -> (r: Option<&'a str>)
        ensures
            match r {
                Some(id) => resolved(self@.manifest, reference@) == Some(id@),
                None => resolved(self@.manifest, reference@).is_none(),
            },
    {
        self.manifest.resolve_alias(reference)
    }

    /// Checks whether a directory is a Git repository: it holds `.git`.
    pub fn is_git_repo(path: &str, replies: &Vec<Reply>, pos: &mut usize) -> (r: Progress<bool>)
        ensures
            agrees(r, *final(pos), is_git_repo_flow(path@, replies.deep_view(), *old(pos) as int)),
    {
        let probe = join_path(path, ".git");
        match ask_stat(replies, pos, probe.as_str()) {
            Progress::Done(kind) => Progress::Done(kind != PathKind::Missing),
            Progress::Ask(q) => Progress::Ask(q),
            Progress::Failed(f) => Progress::Failed(f),
        }
    }

    /// Finds the baums of the workspace.
    pub fn find_all_baums(&self, replies: &Vec<Reply>, pos: &mut usize) -> (r: Progress<
        Vec<FoundBaum>,
    >)
        ensures
            agrees(
                r,
                *final(pos),
                find_baums_step(replies.deep_view(), *old(pos) as int, self@.root),
            ),
    {
        find_all_baums(self.root.as_str(), replies, pos)
    }

    /// Collects the IDs of the baums of the workspace.
    pub fn collect_baum_ids(&self, replies: &Vec<Reply>, pos: &mut usize) -> (r: Progress<StringSet>)
        ensures
            agrees(
                r,
                *final(pos),
                collect_ids_flow(self@.root, replies.deep_view(), *old(pos) as int),
            ),
    {
        collect_baum_ids(self.root.as_str(), replies, pos)
    }
}

/// Writing the registry to its file.
pub open spec fn save_manifest_flow(ws: WorkspaceView, replies: Replies, pos: int) -> Outcome<()> {
    done_step(
        replies,
        pos,
        RequestView::SaveManifest(ws.manifest_path(), ws.manifest),
        ErrorKind::Filesystem,
        "failed to write manifest: "@ + ws.manifest_path(),
    )
}

/// Writing the sync state to its file.
pub open spec fn save_state_flow(ws: WorkspaceView, replies: Replies, pos: int) -> Outcome<()> {
    done_step(
        replies,
        pos,
        RequestView::SaveState(ws.state_path(), ws.state),
        ErrorKind::Filesystem,
        "failed to write state: "@ + ws.state_path(),
    )
}

/// Whether the bare clone of a repository is there: the ID parses, and its
/// bare path is a directory.
pub open spec fn has_bare_repo_flow(
    ws: WorkspaceView,
    repo_id: Seq<char>,
    replies: Replies,
    pos: int,
) -> Outcome<bool> {
    match ws.bare_repo_path(repo_id) {
        Ok(path) => match stat_step(replies, pos, path) {
            Outcome::Done(kind, next) => Outcome::Done(kind == PathKind::Dir, next),
            Outcome::Ask(q) => Outcome::Ask(q),
            Outcome::Failed(f) => Outcome::Failed(f),
        },
        Err(_) => Outcome::Done(false, pos),
    }
}

/// Whether a directory is a Git repository: it holds `.git`.
pub open spec fn is_git_repo_flow(path: Seq<char>, replies: Replies, pos: int) -> Outcome<bool> {
    match stat_step(replies, pos, joined(path, ".git"@)) {
        Outcome::Done(kind, next) => Outcome::Done(kind != PathKind::Missing, next),
        Outcome::Ask(q) => Outcome::Ask(q),
        Outcome::Failed(f) => Outcome::Failed(f),
    }
}

/// Whether a workspace may be initialised at `root`, given the workspace
/// that was found at or above it: not inside another workspace, and not
/// over an existing one unless that is forced.
pub open spec fn nesting_failure(found: Option<Seq<char>>, root: Seq<char>, force: bool) -> Option<
    FailureView,
> {
    match found {
        Some(existing) => if !same_place(existing, root) {
            Some(
                failure(
                    ErrorKind::Precondition,
                    "cannot create nested workspace: already inside workspace at "@ + existing,
                ),
            )
        } else if !force {
            Some(
                failure(
                    ErrorKind::Precondition,
                    "workspace already exists at "@ + root + " (use --force to recreate)"@,
                ),
            )
        } else {
            None
        },
        None => None,
    }
}

/// Writing the state of a fresh workspace.
pub open spec fn fresh_state_flow(root: Seq<char>, replies: Replies, pos: int) -> Outcome<()> {
    let wald = joined(root, ".wald"@);
    match done_step(
        replies,
        pos,
        RequestView::MakeDirs(wald),
        ErrorKind::Filesystem,
        "failed to create .wald/: "@ + wald,
    ) {
        Outcome::Done(_, p1) => match done_step(
            replies,
            p1,
            RequestView::MakeDirs(joined(wald, "repos"@)),
            ErrorKind::Filesystem,
            "failed to create .wald/repos/"@,
        ) {
            Outcome::Done(_, p2) => match done_step(
                replies,
                p2,
                RequestView::SaveManifest(joined(wald, "manifest.yaml"@), Seq::empty()),
                ErrorKind::Filesystem,
                "failed to write manifest"@,
            ) {
                Outcome::Done(_, p3) => match done_step(
                    replies,
                    p3,
                    RequestView::SaveConfig(
                        joined(wald, "config.yaml"@),
                        Config {
                            default_lfs: crate::types::manifest::LfsPolicy::Minimal,
                            default_depth: crate::types::manifest::DepthPolicy::Depth(100),
                            default_filter: crate::types::manifest::FilterPolicy::NoFilter,
                        },
                    ),
                    ErrorKind::Filesystem,
                    "failed to write config"@,
                ) {
                    Outcome::Done(_, p4) => match done_step(
                        replies,
                        p4,
                        RequestView::SaveState(joined(wald, "state.yaml"@), None),
                        ErrorKind::Filesystem,
                        "failed to write state"@,
                    ) {
                        Outcome::Done(_, p5) => ensure_gitignore_flow(root, replies, p5),
                        Outcome::Ask(q) => Outcome::Ask(q),
                        Outcome::Failed(f) => Outcome::Failed(f),
                    },
                    Outcome::Ask(q) => Outcome::Ask(q),
                    Outcome::Failed(f) => Outcome::Failed(f),
                },
                Outcome::Ask(q) => Outcome::Ask(q),
                Outcome::Failed(f) => Outcome::Failed(f),
            },
            Outcome::Ask(q) => Outcome::Ask(q),
            Outcome::Failed(f) => Outcome::Failed(f),
        },
        Outcome::Ask(q) => Outcome::Ask(q),
        Outcome::Failed(f) => Outcome::Failed(f),
    }
}

/// Initialising a workspace at `root`. Nesting is refused. A directory
/// `.wald` that is there is refused too, unless the initialisation is
/// forced: then it is removed first.
pub open spec fn init_flow(root: Seq<char>, force: bool, replies: Replies, pos: int) -> Outcome<()> {
    let wald = joined(root, ".wald"@);
    match find_root_flow(root, replies, pos) {
        Outcome::Done(found, p1) => match nesting_failure(found, root, force) {
            Some(f) => Outcome::Failed(f),
            None => match stat_step(replies, p1, wald) {
                Outcome::Done(kind, p2) => if kind == PathKind::Missing {
                    fresh_state_flow(root, replies, p2)
                } else if !force {
                    Outcome::Failed(
                        failure(
                            ErrorKind::Precondition,
                            ".wald/ already exists at "@ + root + " (use --force to recreate)"@,
                        ),
                    )
                } else {
                    match done_step(
                        replies,
                        p2,
                        RequestView::RemoveTree(wald),
                        ErrorKind::Filesystem,
                        "failed to remove existing .wald/: "@ + wald,
                    ) {
                        Outcome::Done(_, p3) => fresh_state_flow(root, replies, p3),
                        Outcome::Ask(q) => Outcome::Ask(q),
                        Outcome::Failed(f) => Outcome::Failed(f),
                    }
                },
                Outcome::Ask(q) => Outcome::Ask(q),
                Outcome::Failed(f) => Outcome::Failed(f),
            },
        },
        Outcome::Ask(q) => Outcome::Ask(q),
        Outcome::Failed(f) => Outcome::Failed(f),
    }
}

} // verus!
