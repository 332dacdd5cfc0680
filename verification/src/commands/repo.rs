//! `repo`: the registry of repositories and their bare clones.

use vstd::prelude::*;
use crate::commands::common::{bare_path_of, bare_path_or_failure};
use crate::decimal::{decimal_text, format_decimal};
use crate::failure::{failure, ErrorKind, Failure, FailureView};
use crate::flow::{
    agrees, ask_done, ask_stat, stat_step, try_ask, try_step, Outcome, PathKind, Progress, Replies,
    Reply, Request, RequestView,
};
use crate::git::bare::{
    clone_bare, clone_bare_flow, fetch_bare, fetch_bare_flow, fetch_full, fetch_full_flow, gc,
    gc_flow, is_partial_clone, partial_clone_flow, CloneOptions, CloneOptionsView,
};
use crate::order::{lemma_sorted_listing, sort_strs, sorted_listing};
use crate::output::{json_unsupported, Output, OutputFormat};
use crate::paths::{join_path, joined};
use crate::report::{
    info_say, print_say, say_info, say_print, say_status, say_success, status_say, success_say,
};
use crate::split::{clone_opt, clone_strings, join, join_strs};
use crate::text::{cat, cat4};
use crate::types::manifest::{
    alias_matches, fuzzy_matches, has_key, index_of_key, keys_of, resolution, resolved,
    DepthPolicy, FilterPolicy, LfsPolicy, Manifest, Registry, RepoEntry, RepoEntryView,
    Resolution, ResolveResult,
};
use crate::types::repo_id::{error_text, parsed_repo_id, RepoId, RepoIdView};
use crate::workspace::discovery::{save_manifest_flow, Workspace, WorkspaceView};

verus! {

/// What `repo add` is asked to do.
#[derive(Debug)]
pub struct RepoAddOptions {
    /// The ID of the repository.
    pub repo_id: String,
    /// The LFS policy; the default of the workspace where none is given.
    pub lfs: Option<LfsPolicy>,
    /// The clone depth; the default of the workspace where none is given.
    pub depth: Option<DepthPolicy>,
    /// The filter; the default of the workspace where none is given.
    pub filter: Option<FilterPolicy>,
    /// The repository this one was forked from.
    pub upstream: Option<String>,
    /// Short names for the repository.
    pub aliases: Vec<String>,
    /// Clone the repository, unless its bare clone is there already.
    pub clone: bool,
}

/// The value of a `RepoAddOptions`.
pub struct RepoAddOptionsView {
    pub repo_id: Seq<char>,
    pub lfs: Option<LfsPolicy>,
    pub depth: Option<DepthPolicy>,
    pub filter: Option<FilterPolicy>,
    pub upstream: Option<Seq<char>>,
    pub aliases: Seq<Seq<char>>,
    pub clone: bool,
}

impl View for RepoAddOptions {
    type V = RepoAddOptionsView;

    open spec fn view(&self) -> RepoAddOptionsView {
        RepoAddOptionsView {
            repo_id: self.repo_id@,
            lfs: self.lfs,
            depth: self.depth,
            filter: self.filter,
            upstream: self.upstream.deep_view(),
            aliases: self.aliases.deep_view(),
            clone: self.clone,
        }
    }
}

/// The entry that `repo add` registers: what the options say, and the
/// defaults of the workspace for what they leave open.
pub open spec fn new_entry(ws: WorkspaceView, opts: RepoAddOptionsView) -> RepoEntryView {
    RepoEntryView {
        lfs: match opts.lfs {
            Some(p) => p,
            None => ws.config.default_lfs,
        },
        depth: match opts.depth {
            Some(p) => p,
            None => ws.config.default_depth,
        },
        filter: match opts.filter {
            Some(p) => p,
            None => ws.config.default_filter,
        },
        upstream: opts.upstream,
        aliases: opts.aliases,
    }
}

/// How the bare clone of an entry is made.
pub open spec fn clone_options_of(entry: RepoEntryView) -> CloneOptionsView {
    CloneOptionsView {
        depth: match entry.depth {
            DepthPolicy::Full => None,
            DepthPolicy::Depth(d) => Some(d),
        },
        filter: match entry.filter {
            FilterPolicy::NoFilter => None,
            FilterPolicy::BlobNone => Some("blob:none"@),
            FilterPolicy::TreeZero => Some("tree:0"@),
        },
    }
}

/// The repository that a name is taken by, if it is taken: the repository
/// that the name resolves to, or, where several repositories answer to it,
/// the first of them in dictionary order.
pub open spec fn holder_of(registry: Registry, name: Seq<char>) -> Option<Seq<char>> {
    match resolution(registry, name) {
        Resolution::Found(id) => Some(id),
        Resolution::Ambiguous(ids) => Some(ids[0]),
        Resolution::NotFound => None,
    }
}

/// The first alias, from index `from` on, that is taken already, together
/// with the repository that holds it. An alias that is ambiguous is taken.
pub open spec fn alias_conflict(registry: Registry, aliases: Seq<Seq<char>>, from: int) -> Option<
    (Seq<char>, Seq<char>),
>
    decreases aliases.len() - from,
{
    if from < 0 || from >= aliases.len() {
        None
    } else {
        match holder_of(registry, aliases[from]) {
            Some(owner) => Some((aliases[from], owner)),
            None => alias_conflict(registry, aliases, from + 1),
        }
    }
}

fn find_holder(manifest: &Manifest, name: &str) -> (r: Option<String>)
    ensures
        r.deep_view() == holder_of(manifest@, name@),
{
    match manifest.resolve_with_details(name) {
        ResolveResult::Found(id) => Some(id.to_owned()),
        ResolveResult::Ambiguous(ids) => {
            proof {
                lemma_sorted_listing(alias_matches(manifest@, name@));
                lemma_sorted_listing(fuzzy_matches(keys_of(manifest@), name@));
            }
            assert(ids.deep_view()[0] == ids[0]@);
            Some(ids[0].to_owned())
        },
        ResolveResult::NotFound => None,
    }
}

fn find_alias_conflict(manifest: &Manifest, aliases: &Vec<String>) -> (r: Option<(String, String)>)
    ensures
        r.deep_view() == alias_conflict(manifest@, aliases.deep_view(), 0),
{
    let mut i: usize = 0;
    while i < aliases.len()
        invariant
            i <= aliases.len(),
            alias_conflict(manifest@, aliases.deep_view(), 0) == alias_conflict(
                manifest@,
                aliases.deep_view(),
                i as int,
            ),
        decreases aliases.len() - i,
    {
        assert(aliases.deep_view()[i as int] == aliases[i as int]@);
        if let Some(owner) = find_holder(manifest, aliases[i].as_str()) {
            return Some((aliases[i].clone(), owner));
        }
        i += 1;
    }
    None
}

/// Cloning the repository for `repo add`, where that is asked for and the
/// bare clone is not there yet.
pub open spec fn add_clone_flow(
    ws: WorkspaceView,
    opts: RepoAddOptionsView,
    out: Output,
    id: RepoIdView,
    entry: RepoEntryView,
    replies: Replies,
    pos: int,
) -> Outcome<()> {
    if !opts.clone {
        Outcome::Done((), pos)
    } else {
        let bare = joined(ws.repos_dir(), id.bare_path());
        match stat_step(replies, pos, bare) {
            Outcome::Done(kind, p1) => if kind != PathKind::Missing {
                Outcome::Done((), p1)
            } else {
                match status_say(out, "Cloning"@, id.canonical(), replies, p1) {
                    Outcome::Done(_, p2) => clone_bare_flow(
                        id,
                        bare,
                        clone_options_of(entry),
                        replies,
                        p2,
                    ),
                    Outcome::Ask(q) => Outcome::Ask(q),
                    Outcome::Failed(f) => Outcome::Failed(f),
                }
            },
            Outcome::Ask(q) => Outcome::Ask(q),
            Outcome::Failed(f) => Outcome::Failed(f),
        }
    }
}

/// Registering a repository.
///
/// The ID must parse and must be new, and none of the aliases may be taken
/// already, be it by one repository or by several. The repository is cloned where that is asked
/// for. Then the entry joins the registry, which is saved and handed back.
pub open spec fn repo_add_flow(
    ws: WorkspaceView,
    opts: RepoAddOptionsView,
    out: Output,
    replies: Replies,
    pos: int,
) -> Outcome<Registry> {
    if out.format == OutputFormat::Json {
        Outcome::Failed(json_unsupported("repo add"@))
    } else {
        match parsed_repo_id(opts.repo_id) {
            Err(e) => Outcome::Failed(failure(ErrorKind::UserInput, error_text(e))),
            Ok(id) => if has_key(ws.manifest, id.canonical()) {
                Outcome::Failed(
                    failure(
                        ErrorKind::Precondition,
                        "repository already registered: "@ + id.canonical(),
                    ),
                )
            } else {
                match alias_conflict(ws.manifest, opts.aliases, 0) {
                    Some((alias, owner)) => Outcome::Failed(
                        failure(
                            ErrorKind::Precondition,
                            "alias '"@ + alias + "' already in use by repository: "@ + owner,
                        ),
                    ),
                    None => {
                        let entry = new_entry(ws, opts);
                        let grown = ws.manifest.push((id.canonical(), entry));
                        match add_clone_flow(ws, opts, out, id, entry, replies, pos) {
                            Outcome::Done(_, p1) => match save_manifest_flow(
                                WorkspaceView { manifest: grown, ..ws },
                                replies,
                                p1,
                            ) {
                                Outcome::Done(_, p2) => match success_say(
                                    out,
                                    "Added repository: "@ + id.canonical(),
                                    replies,
                                    p2,
                                ) {
                                    Outcome::Done(_, p3) => Outcome::Done(grown, p3),
                                    Outcome::Ask(q) => Outcome::Ask(q),
                                    Outcome::Failed(f) => Outcome::Failed(f),
                                },
                                Outcome::Ask(q) => Outcome::Ask(q),
                                Outcome::Failed(f) => Outcome::Failed(f),
                            },
                            Outcome::Ask(q) => Outcome::Ask(q),
                            Outcome::Failed(f) => Outcome::Failed(f),
                        }
                    },
                }
            },
        }
    }
}

fn save_registry(ws: &Workspace, manifest: &Manifest, replies: &Vec<Reply>, pos: &mut usize) -> (r:
    Progress<()>)
    ensures
        agrees(
            r,
            *final(pos),
            save_manifest_flow(
                WorkspaceView { manifest: manifest@, ..ws@ },
                replies.deep_view(),
                *old(pos) as int,
            ),
        ),
{
    let path = ws.manifest_path();
    let context = cat("failed to write manifest: ", path.as_str());
    ask_done(
        replies,
        pos,
        Request::SaveManifest(path, manifest.clone()),
        ErrorKind::Filesystem,
        context.as_str(),
    )
}

/// Adds a repository to the registry. The result is the registry with the
/// repository in it.
pub fn repo_add(
    ws: &Workspace,
    opts: &RepoAddOptions,
    out: &Output,
    replies: &Vec<Reply>,
    pos: &mut usize,
) -> (r: Progress<Manifest>)
    ensures
        agrees(r, *final(pos), repo_add_flow(ws@, opts@, *out, replies.deep_view(), *old(pos) as int)),
{
    if let Err(f) = out.require_human("repo add") {
        return Progress::Failed(f);
    }
    let id = match RepoId::parse(opts.repo_id.as_str()) {
        Ok(id) => id,
        Err(e) => {
            return Progress::Failed(Failure::new(ErrorKind::UserInput, e.message()));
        },
    };
    let repo_id = id.as_str();
    if ws.manifest.has_repo(repo_id.as_str()) {
        return Progress::Failed(
            Failure::new(
                ErrorKind::Precondition,
                cat("repository already registered: ", repo_id.as_str()),
            ),
        );
    }
    if let Some((alias, owner)) = find_alias_conflict(&ws.manifest, &opts.aliases) {
        return Progress::Failed(
            Failure::new(
                ErrorKind::Precondition,
                cat4("alias '", alias.as_str(), "' already in use by repository: ", owner.as_str()),
            ),
        );
    }
    let entry = RepoEntry {
        lfs: match opts.lfs {
            Some(p) => p,
            None => ws.config.default_lfs,
        },
        depth: match opts.depth {
            Some(p) => p,
            None => ws.config.default_depth,
        },
        filter: match opts.filter {
            Some(p) => p,
            None => ws.config.default_filter,
        },
        upstream: clone_opt(&opts.upstream),
        aliases: clone_strings(&opts.aliases),
    };
    if opts.clone {
        let rel = id.to_bare_path();
        let bare = join_path(ws.repos_dir().as_str(), rel.as_str());
        match ask_stat(replies, pos, bare.as_str()) {
            Progress::Done(kind) => {
                if kind == PathKind::Missing {
                    match say_status(out, "Cloning", repo_id.as_str(), replies, pos) {
                        Progress::Done(_) => {},
                        Progress::Ask(q) => {
                            return Progress::Ask(q);
                        },
                        Progress::Failed(f) => {
                            return Progress::Failed(f);
                        },
                    }
                    let clone_opts = CloneOptions {
                        depth: match entry.depth {
                            DepthPolicy::Full => None,
                            DepthPolicy::Depth(d) => Some(d),
                        },
                        filter: match entry.filter.as_git_arg() {
                            Some(f) => Some(f.to_owned()),
                            None => None,
                        },
                    };
                    match clone_bare(&id, bare.as_str(), &clone_opts, replies, pos) {
                        Progress::Done(_) => {},
                        Progress::Ask(q) => {
                            return Progress::Ask(q);
                        },
                        Progress::Failed(f) => {
                            return Progress::Failed(f);
                        },
                    }
                }
            },
            Progress::Ask(q) => {
                return Progress::Ask(q);
            },
            Progress::Failed(f) => {
                return Progress::Failed(f);
            },
        }
    }
    let mut manifest = ws.manifest.clone();
    manifest.repos.insert(repo_id.clone(), entry);
    match save_registry(ws, &manifest, replies, pos) {
        Progress::Done(_) => {},
        Progress::Ask(q) => {
            return Progress::Ask(q);
        },
        Progress::Failed(f) => {
            return Progress::Failed(f);
        },
    }
    let message = cat("Added repository: ", repo_id.as_str());
    match say_success(out, message.as_str(), replies, pos) {
        Progress::Done(_) => Progress::Done(manifest),
        Progress::Ask(q) => Progress::Ask(q),
        Progress::Failed(f) => Progress::Failed(f),
    }
}

/// The error of a reference that resolves to no repository.
pub open spec fn repo_not_found(reference: Seq<char>) -> FailureView {
    failure(ErrorKind::Precondition, "repository not found: "@ + reference)
}

/// Taking a repository out of the registry. The reference must resolve to
/// exactly one repository. The registry without it is saved and handed
/// back; the bare clone stays.
pub open spec fn repo_remove_flow(
    ws: WorkspaceView,
    reference: Seq<char>,
    out: Output,
    replies: Replies,
    pos: int,
) -> Outcome<Registry> {
    if out.format == OutputFormat::Json {
        Outcome::Failed(json_unsupported("repo remove"@))
    } else {
        match resolved(ws.manifest, reference) {
            None => Outcome::Failed(repo_not_found(reference)),
            Some(id) => {
                let left = if has_key(ws.manifest, id) {
                    ws.manifest.remove(index_of_key(ws.manifest, id))
                } else {
                    ws.manifest
                };
                match save_manifest_flow(WorkspaceView { manifest: left, ..ws }, replies, pos) {
                    Outcome::Done(_, p1) => match success_say(
                        out,
                        "Removed repository: "@ + id,
                        replies,
                        p1,
                    ) {
                        Outcome::Done(_, p2) => Outcome::Done(left, p2),
                        Outcome::Ask(q) => Outcome::Ask(q),
                        Outcome::Failed(f) => Outcome::Failed(f),
                    },
                    Outcome::Ask(q) => Outcome::Ask(q),
                    Outcome::Failed(f) => Outcome::Failed(f),
                }
            },
        }
    }
}

/// Removes a repository from the registry. The result is the registry
/// without it.
pub fn repo_remove(
    ws: &Workspace,
    repo_ref: &str,
    out: &Output,
    replies: &Vec<Reply>,
    pos: &mut usize,
) -> (r: Progress<Manifest>)
    ensures
        agrees(
            r,
            *final(pos),
            repo_remove_flow(ws@, repo_ref@, *out, replies.deep_view(), *old(pos) as int),
        ),
{
    if let Err(f) = out.require_human("repo remove") {
        return Progress::Failed(f);
    }
    let id = match ws.resolve_repo(repo_ref) {
        Some(id) => id.to_owned(),
        None => {
            return Progress::Failed(
                Failure::new(ErrorKind::Precondition, cat("repository not found: ", repo_ref)),
            );
        },
    };
    let mut manifest = ws.manifest.clone();
    manifest.repos.remove(id.as_str());
    match save_registry(ws, &manifest, replies, pos) {
        Progress::Done(_) => {},
        Progress::Ask(q) => {
            return Progress::Ask(q);
        },
        Progress::Failed(f) => {
            return Progress::Failed(f);
        },
    }
    let message = cat("Removed repository: ", id.as_str());
    match say_success(out, message.as_str(), replies, pos) {
        Progress::Done(_) => Progress::Done(manifest),
        Progress::Ask(q) => Progress::Ask(q),
        Progress::Failed(f) => Progress::Failed(f),
    }
}

/// A repository and the path of its bare clone.
#[derive(Debug)]
pub struct ClonedRepo {
    pub repo_id: String,
    pub bare_path: String,
}

/// The value of a `ClonedRepo`.
pub struct ClonedRepoView {
    pub repo_id: Seq<char>,
    pub bare_path: Seq<char>,
}

impl View for ClonedRepo {
    type V = ClonedRepoView;

    open spec fn view(&self) -> ClonedRepoView {
        ClonedRepoView { repo_id: self.repo_id@, bare_path: self.bare_path@ }
    }
}

impl DeepView for ClonedRepo {
    type V = ClonedRepoView;

    open spec fn deep_view(&self) -> ClonedRepoView {
        self@
    }
}

/// The registered repositories, from index `from` on, whose ID parses and
/// whose bare clone is there, after those that were found before.
pub open spec fn cloned_repos_flow(
    ws: WorkspaceView,
    from: int,
    so_far: Seq<ClonedRepoView>,
    replies: Replies,
    pos: int,
) -> Outcome<Seq<ClonedRepoView>>
    decreases ws.manifest.len() - from,
{
    if from < 0 || from >= ws.manifest.len() {
        Outcome::Done(so_far, pos)
    } else {
        let id = ws.manifest[from].0;
        match ws.bare_repo_path(id) {
            Err(_) => cloned_repos_flow(ws, from + 1, so_far, replies, pos),
            Ok(bare) => match stat_step(replies, pos, bare) {
                Outcome::Done(kind, next) => cloned_repos_flow(
                    ws,
                    from + 1,
                    if kind == PathKind::Missing {
                        so_far
                    } else {
                        so_far.push(ClonedRepoView { repo_id: id, bare_path: bare })
                    },
                    replies,
                    next,
                ),
                Outcome::Ask(q) => Outcome::Ask(q),
                Outcome::Failed(f) => Outcome::Failed(f),
            },
        }
    }
}

/// The repositories that a command works on: the one that the reference
/// resolves to, whose bare clone must be there, or all that are cloned
/// where there is no reference.
pub open spec fn chosen_repos_flow(
    ws: WorkspaceView,
    reference: Option<Seq<char>>,
    replies: Replies,
    pos: int,
) -> Outcome<Seq<ClonedRepoView>> {
    match reference {
        None => cloned_repos_flow(ws, 0, Seq::empty(), replies, pos),
        Some(r) => match resolved(ws.manifest, r) {
            None => Outcome::Failed(repo_not_found(r)),
            Some(id) => match bare_path_or_failure(ws, id) {
                Err(f) => Outcome::Failed(f),
                Ok(bare) => match stat_step(replies, pos, bare) {
                    Outcome::Done(kind, next) => if kind == PathKind::Missing {
                        Outcome::Failed(
                            failure(ErrorKind::Filesystem, "bare repo not found: "@ + bare),
                        )
                    } else {
                        Outcome::Done(seq![ClonedRepoView { repo_id: id, bare_path: bare }], next)
                    },
                    Outcome::Ask(q) => Outcome::Ask(q),
                    Outcome::Failed(f) => Outcome::Failed(f),
                },
            },
        },
    }
}

fn cloned_repos(ws: &Workspace, replies: &Vec<Reply>, pos: &mut usize) -> (r: Progress<
    Vec<ClonedRepo>,
>)
    ensures
        agrees(
            r,
            *final(pos),
            cloned_repos_flow(ws@, 0, Seq::empty(), replies.deep_view(), *old(pos) as int),
        ),
{
    let mut found: Vec<ClonedRepo> = Vec::new();
    let n = ws.manifest.repos.len();
    let mut i: usize = 0;
    let ghost begin = *pos as int;
    assert(found.deep_view() == Seq::<ClonedRepoView>::empty());
    while i < n
        invariant
            i <= n,
            n == ws@.manifest.len(),
            begin == *old(pos) as int,
            cloned_repos_flow(ws@, 0, Seq::empty(), replies.deep_view(), begin)
                == cloned_repos_flow(
                ws@,
                i as int,
                found.deep_view(),
                replies.deep_view(),
                *pos as int,
            ),
        decreases n - i,
    {
        let id = ws.manifest.repos.key_at(i);
        if let Ok(bare) = ws.bare_repo_path(id) {
            match ask_stat(replies, pos, bare.as_str()) {
                Progress::Done(kind) => {
                    if kind != PathKind::Missing {
                        let ghost before = found.deep_view();
                        let item = ClonedRepo { repo_id: id.to_owned(), bare_path: bare };
                        found.push(item);
                        assert(found.deep_view() == before.push(item@));
                    }
                },
                Progress::Ask(q) => {
                    return Progress::Ask(q);
                },
                Progress::Failed(f) => {
                    return Progress::Failed(f);
                },
            }
        }
        i += 1;
    }
    Progress::Done(found)
}

fn chosen_repos(ws: &Workspace, reference: &Option<String>, replies: &Vec<Reply>, pos: &mut usize) -> (r:
    Progress<Vec<ClonedRepo>>)
    ensures
        agrees(
            r,
            *final(pos),
            chosen_repos_flow(ws@, reference.deep_view(), replies.deep_view(), *old(pos) as int),
        ),
{
    let wanted = match reference {
        None => {
            return cloned_repos(ws, replies, pos);
        },
        Some(r) => r,
    };
    let id = match ws.resolve_repo(wanted.as_str()) {
        Some(id) => id.to_owned(),
        None => {
            return Progress::Failed(
                Failure::new(
                    ErrorKind::Precondition,
                    cat("repository not found: ", wanted.as_str()),
                ),
            );
        },
    };
    let bare = match bare_path_of(ws, id.as_str()) {
        Ok(p) => p,
        Err(f) => {
            return Progress::Failed(f);
        },
    };
    match ask_stat(replies, pos, bare.as_str()) {
        Progress::Done(kind) => {
            if kind == PathKind::Missing {
                return Progress::Failed(
                    Failure::new(ErrorKind::Filesystem, cat("bare repo not found: ", bare.as_str())),
                );
            }
            let mut one: Vec<ClonedRepo> = Vec::new();
            let item = ClonedRepo { repo_id: id, bare_path: bare };
            one.push(item);
            assert(one.deep_view() == seq![item@]);
            Progress::Done(one)
        },
        Progress::Ask(q) => Progress::Ask(q),
        Progress::Failed(f) => Progress::Failed(f),
    }
}

/// What `repo fetch` is asked to do.
#[derive(Debug)]
pub struct RepoFetchOptions {
    /// The repository; all cloned repositories where there is none.
    pub repo_ref: Option<String>,
    /// Turn partial clones into full ones and fetch everything.
    pub full: bool,
}

/// The value of a `RepoFetchOptions`.
pub struct RepoFetchOptionsView {
    pub repo_ref: Option<Seq<char>>,
    pub full: bool,
}

impl View for RepoFetchOptions {
    type V = RepoFetchOptionsView;

    open spec fn view(&self) -> RepoFetchOptionsView {
        RepoFetchOptionsView { repo_ref: self.repo_ref.deep_view(), full: self.full }
    }
}

/// The registry after a repository has become a full clone: its entry has
/// no filter any more.
pub open spec fn without_filter(registry: Registry, id: Seq<char>) -> Registry {
    if has_key(registry, id) {
        registry.update(
            index_of_key(registry, id),
            (
                id,
                RepoEntryView {
                    filter: FilterPolicy::NoFilter,
                    ..registry[index_of_key(registry, id)].1
                },
            ),
        )
    } else {
        registry
    }
}

/// Fetching one repository. A full fetch turns a partial clone into a full
/// one and records that in the registry; the flag says whether it did.
pub open spec fn fetch_one_flow(
    out: Output,
    full: bool,
    repo: ClonedRepoView,
    registry: Registry,
    changed: bool,
    replies: Replies,
    pos: int,
) -> Outcome<(Registry, bool)> {
    if !full {
        match status_say(out, "Fetching"@, repo.repo_id, replies, pos) {
            Outcome::Done(_, p1) => match fetch_bare_flow(repo.bare_path, replies, p1) {
                Outcome::Done(_, p2) => Outcome::Done((registry, changed), p2),
                Outcome::Ask(q) => Outcome::Ask(q),
                Outcome::Failed(f) => Outcome::Failed(f),
            },
            Outcome::Ask(q) => Outcome::Ask(q),
            Outcome::Failed(f) => Outcome::Failed(f),
        }
    } else {
        match partial_clone_flow(repo.bare_path, replies, pos) {
            Outcome::Done(partial, p1) => if partial {
                match status_say(out, "Converting to full clone"@, repo.repo_id, replies, p1) {
                    Outcome::Done(_, p2) => match fetch_full_flow(repo.bare_path, replies, p2) {
                        Outcome::Done(_, p3) => Outcome::Done(
                            (
                                without_filter(registry, repo.repo_id),
                                changed || has_key(registry, repo.repo_id),
                            ),
                            p3,
                        ),
                        Outcome::Ask(q) => Outcome::Ask(q),
                        Outcome::Failed(f) => Outcome::Failed(f),
                    },
                    Outcome::Ask(q) => Outcome::Ask(q),
                    Outcome::Failed(f) => Outcome::Failed(f),
                }
            } else {
                match status_say(
                    out,
                    "Fetching"@,
                    repo.repo_id + " (already full)"@,
                    replies,
                    p1,
                ) {
                    Outcome::Done(_, p2) => match fetch_bare_flow(repo.bare_path, replies, p2) {
                        Outcome::Done(_, p3) => Outcome::Done((registry, changed), p3),
                        Outcome::Ask(q) => Outcome::Ask(q),
                        Outcome::Failed(f) => Outcome::Failed(f),
                    },
                    Outcome::Ask(q) => Outcome::Ask(q),
                    Outcome::Failed(f) => Outcome::Failed(f),
                }
            },
            Outcome::Ask(q) => Outcome::Ask(q),
            Outcome::Failed(f) => Outcome::Failed(f),
        }
    }
}

/// Fetching the repositories from index `from` on.
pub open spec fn fetch_each_flow(
    out: Output,
    full: bool,
    repos: Seq<ClonedRepoView>,
    from: int,
    registry: Registry,
    changed: bool,
    replies: Replies,
    pos: int,
) -> Outcome<(Registry, bool)>
    decreases repos.len() - from,
{
    if from < 0 || from >= repos.len() {
        Outcome::Done((registry, changed), pos)
    } else {
        match fetch_one_flow(out, full, repos[from], registry, changed, replies, pos) {
            Outcome::Done((next_registry, next_changed), next) => fetch_each_flow(
                out,
                full,
                repos,
                from + 1,
                next_registry,
                next_changed,
                replies,
                next,
            ),
            Outcome::Ask(q) => Outcome::Ask(q),
            Outcome::Failed(f) => Outcome::Failed(f),
        }
    }
}

/// Fetching updates for repositories. The result is the registry after the
/// fetch, which differs from the registry before where partial clones
/// became full ones; it is saved when it differs.
pub open spec fn repo_fetch_flow(
    ws: WorkspaceView,
    opts: RepoFetchOptionsView,
    out: Output,
    replies: Replies,
    pos: int,
) -> Outcome<Registry> {
    if out.format == OutputFormat::Json {
        Outcome::Failed(json_unsupported("repo fetch"@))
    } else {
        match chosen_repos_flow(ws, opts.repo_ref, replies, pos) {
            Outcome::Done(repos, p1) => if repos.len() == 0 {
                match info_say(out, "No repositories to fetch"@, replies, p1) {
                    Outcome::Done(_, p2) => Outcome::Done(ws.manifest, p2),
                    Outcome::Ask(q) => Outcome::Ask(q),
                    Outcome::Failed(f) => Outcome::Failed(f),
                }
            } else {
                match fetch_each_flow(out, opts.full, repos, 0, ws.manifest, false, replies, p1) {
                    Outcome::Done((registry, changed), p2) => {
                        let saved = if changed {
                            save_manifest_flow(
                                WorkspaceView { manifest: registry, ..ws },
                                replies,
                                p2,
                            )
                        } else {
                            Outcome::Done((), p2)
                        };
                        match saved {
                            Outcome::Done(_, p3) => match success_say(
                                out,
                                "Fetch complete"@,
                                replies,
                                p3,
                            ) {
                                Outcome::Done(_, p4) => Outcome::Done(registry, p4),
                                Outcome::Ask(q) => Outcome::Ask(q),
                                Outcome::Failed(f) => Outcome::Failed(f),
                            },
                            Outcome::Ask(q) => Outcome::Ask(q),
                            Outcome::Failed(f) => Outcome::Failed(f),
                        }
                    },
                    Outcome::Ask(q) => Outcome::Ask(q),
                    Outcome::Failed(f) => Outcome::Failed(f),
                }
            },
            Outcome::Ask(q) => Outcome::Ask(q),
            Outcome::Failed(f) => Outcome::Failed(f),
        }
    }
}

fn fetch_one(
    out: &Output,
    full: bool,
    repo: &ClonedRepo,
    manifest: Manifest,
    changed: bool,
    replies: &Vec<Reply>,
    pos: &mut usize,
) -> (r: Progress<(Manifest, bool)>)
    ensures
        agrees(
            r,
            *final(pos),
            fetch_one_flow(
                *out,
                full,
                repo@,
                manifest@,
                changed,
                replies.deep_view(),
                *old(pos) as int,
            ),
        ),
{
    let mut manifest = manifest;
    let bare = repo.bare_path.as_str();
    let id = repo.repo_id.as_str();
    if !full {
        match say_status(out, "Fetching", id, replies, pos) {
            Progress::Done(_) => {},
            Progress::Ask(q) => {
                return Progress::Ask(q);
            },
            Progress::Failed(f) => {
                return Progress::Failed(f);
            },
        }
        return match fetch_bare(bare, replies, pos) {
            Progress::Done(_) => Progress::Done((manifest, changed)),
            Progress::Ask(q) => Progress::Ask(q),
            Progress::Failed(f) => Progress::Failed(f),
        };
    }
    let partial = match is_partial_clone(bare, replies, pos) {
        Progress::Done(p) => p,
        Progress::Ask(q) => {
            return Progress::Ask(q);
        },
        Progress::Failed(f) => {
            return Progress::Failed(f);
        },
    };
    if partial {
        match say_status(out, "Converting to full clone", id, replies, pos) {
            Progress::Done(_) => {},
            Progress::Ask(q) => {
                return Progress::Ask(q);
            },
            Progress::Failed(f) => {
                return Progress::Failed(f);
            },
        }
        match fetch_full(bare, replies, pos) {
            Progress::Done(_) => {},
            Progress::Ask(q) => {
                return Progress::Ask(q);
            },
            Progress::Failed(f) => {
                return Progress::Failed(f);
            },
        }
        let found = manifest.repos.set_filter(id, FilterPolicy::NoFilter);
        Progress::Done((manifest, changed || found))
    } else {
        let target = cat(id, " (already full)");
        match say_status(out, "Fetching", target.as_str(), replies, pos) {
            Progress::Done(_) => {},
            Progress::Ask(q) => {
                return Progress::Ask(q);
            },
            Progress::Failed(f) => {
                return Progress::Failed(f);
            },
        }
        match fetch_bare(bare, replies, pos) {
            Progress::Done(_) => Progress::Done((manifest, changed)),
            Progress::Ask(q) => Progress::Ask(q),
            Progress::Failed(f) => Progress::Failed(f),
        }
    }
}

fn fetch_each(
    out: &Output,
    full: bool,
    repos: &Vec<ClonedRepo>,
    manifest: Manifest,
    replies: &Vec<Reply>,
    pos: &mut usize,
) -> (r: Progress<(Manifest, bool)>)
    ensures
        agrees(
            r,
            *final(pos),
            fetch_each_flow(
                *out,
                full,
                repos.deep_view(),
                0,
                manifest@,
                false,
                replies.deep_view(),
                *old(pos) as int,
            ),
        ),
{
    let ghost first = manifest@;
    let ghost begin = *pos as int;
    let mut current = manifest;
    let mut changed = false;
    let mut i: usize = 0;
    while i < repos.len()
        invariant
            i <= repos.len(),
            begin == *old(pos) as int,
            first == manifest@,
            fetch_each_flow(
                *out,
                full,
                repos.deep_view(),
                0,
                first,
                false,
                replies.deep_view(),
                begin,
            ) == fetch_each_flow(
                *out,
                full,
                repos.deep_view(),
                i as int,
                current@,
                changed,
                replies.deep_view(),
                *pos as int,
            ),
        decreases repos.len() - i,
    {
        assert(repos.deep_view()[i as int] == repos[i as int]@);
        match fetch_one(out, full, &repos[i], current, changed, replies, pos) {
            Progress::Done((m, c)) => {
                current = m;
                changed = c;
            },
            Progress::Ask(q) => {
                return Progress::Ask(q);
            },
            Progress::Failed(f) => {
                return Progress::Failed(f);
            },
        }
        i += 1;
    }
    Progress::Done((current, changed))
}

/// Fetches updates for repositories. The result is the registry after the
/// fetch.
pub fn repo_fetch(
    ws: &Workspace,
    opts: &RepoFetchOptions,
    out: &Output,
    replies: &Vec<Reply>,
    pos: &mut usize,
) -> (r: Progress<Manifest>)
    ensures
        agrees(
            r,
            *final(pos),
            repo_fetch_flow(ws@, opts@, *out, replies.deep_view(), *old(pos) as int),
        ),
{
    if let Err(f) = out.require_human("repo fetch") {
        return Progress::Failed(f);
    }
    let repos = match chosen_repos(ws, &opts.repo_ref, replies, pos) {
        Progress::Done(r) => r,
        Progress::Ask(q) => {
            return Progress::Ask(q);
        },
        Progress::Failed(f) => {
            return Progress::Failed(f);
        },
    };
    if repos.len() == 0 {
        return match say_info(out, "No repositories to fetch", replies, pos) {
            Progress::Done(_) => Progress::Done(ws.manifest.clone()),
            Progress::Ask(q) => Progress::Ask(q),
            Progress::Failed(f) => Progress::Failed(f),
        };
    }
    let (manifest, changed) = match fetch_each(
        out,
        opts.full,
        &repos,
        ws.manifest.clone(),
        replies,
        pos,
    ) {
        Progress::Done(pair) => pair,
        Progress::Ask(q) => {
            return Progress::Ask(q);
        },
        Progress::Failed(f) => {
            return Progress::Failed(f);
        },
    };
    if changed {
        match save_registry(ws, &manifest, replies, pos) {
            Progress::Done(_) => {},
            Progress::Ask(q) => {
                return Progress::Ask(q);
            },
            Progress::Failed(f) => {
                return Progress::Failed(f);
            },
        }
    }
    match say_success(out, "Fetch complete", replies, pos) {
        Progress::Done(_) => Progress::Done(manifest),
        Progress::Ask(q) => Progress::Ask(q),
        Progress::Failed(f) => Progress::Failed(f),
    }
}

/// What `repo gc` is asked to do.
#[derive(Debug)]
pub struct RepoGcOptions {
    /// The repository; all cloned repositories where there is none.
    pub repo_ref: Option<String>,
    /// Collect more thoroughly, and more slowly.
    pub aggressive: bool,
}

/// The value of a `RepoGcOptions`.
pub struct RepoGcOptionsView {
    pub repo_ref: Option<Seq<char>>,
    pub aggressive: bool,
}

impl View for RepoGcOptions {
    type V = RepoGcOptionsView;

    open spec fn view(&self) -> RepoGcOptionsView {
        RepoGcOptionsView { repo_ref: self.repo_ref.deep_view(), aggressive: self.aggressive }
    }
}

/// Collecting garbage in the repositories from index `from` on.
pub open spec fn gc_each_flow(
    out: Output,
    aggressive: bool,
    repos: Seq<ClonedRepoView>,
    from: int,
    replies: Replies,
    pos: int,
) -> Outcome<()>
    decreases repos.len() - from,
{
    if from < 0 || from >= repos.len() {
        Outcome::Done((), pos)
    } else {
        match status_say(out, "Cleaning"@, repos[from].repo_id, replies, pos) {
            Outcome::Done(_, p1) => match gc_flow(repos[from].bare_path, aggressive, replies, p1) {
                Outcome::Done(_, p2) => gc_each_flow(out, aggressive, repos, from + 1, replies, p2),
                Outcome::Ask(q) => Outcome::Ask(q),
                Outcome::Failed(f) => Outcome::Failed(f),
            },
            Outcome::Ask(q) => Outcome::Ask(q),
            Outcome::Failed(f) => Outcome::Failed(f),
        }
    }
}

/// Collecting garbage in repositories.
pub open spec fn repo_gc_flow(
    ws: WorkspaceView,
    opts: RepoGcOptionsView,
    out: Output,
    replies: Replies,
    pos: int,
) -> Outcome<()> {
    if out.format == OutputFormat::Json {
        Outcome::Failed(json_unsupported("repo gc"@))
    } else {
        match chosen_repos_flow(ws, opts.repo_ref, replies, pos) {
            Outcome::Done(repos, p1) => if repos.len() == 0 {
                info_say(out, "No repositories to clean"@, replies, p1)
            } else {
                match gc_each_flow(out, opts.aggressive, repos, 0, replies, p1) {
                    Outcome::Done(_, p2) => success_say(
                        out,
                        "Garbage collection complete"@,
                        replies,
                        p2,
                    ),
                    Outcome::Ask(q) => Outcome::Ask(q),
                    Outcome::Failed(f) => Outcome::Failed(f),
                }
            },
            Outcome::Ask(q) => Outcome::Ask(q),
            Outcome::Failed(f) => Outcome::Failed(f),
        }
    }
}

fn gc_each(
    out: &Output,
    aggressive: bool,
    repos: &Vec<ClonedRepo>,
    replies: &Vec<Reply>,
    pos: &mut usize,
) -> (r: Progress<()>)
    ensures
        agrees(
            r,
            *final(pos),
            gc_each_flow(
                *out,
                aggressive,
                repos.deep_view(),
                0,
                replies.deep_view(),
                *old(pos) as int,
            ),
        ),
{
    let mut i: usize = 0;
    let ghost begin = *pos as int;
    while i < repos.len()
        invariant
            i <= repos.len(),
            begin == *old(pos) as int,
            gc_each_flow(*out, aggressive, repos.deep_view(), 0, replies.deep_view(), begin)
                == gc_each_flow(
                *out,
                aggressive,
                repos.deep_view(),
                i as int,
                replies.deep_view(),
                *pos as int,
            ),
        decreases repos.len() - i,
    {
        assert(repos.deep_view()[i as int] == repos[i as int]@);
        match say_status(out, "Cleaning", repos[i].repo_id.as_str(), replies, pos) {
            Progress::Done(_) => {},
            Progress::Ask(q) => {
                return Progress::Ask(q);
            },
            Progress::Failed(f) => {
                return Progress::Failed(f);
            },
        }
        match gc(repos[i].bare_path.as_str(), aggressive, replies, pos) {
            Progress::Done(_) => {},
            Progress::Ask(q) => {
                return Progress::Ask(q);
            },
            Progress::Failed(f) => {
                return Progress::Failed(f);
            },
        }
        i += 1;
    }
    Progress::Done(())
}

/// Runs garbage collection on repositories.
pub fn repo_gc(
    ws: &Workspace,
    opts: &RepoGcOptions,
    out: &Output,
    replies: &Vec<Reply>,
    pos: &mut usize,
) -> (r: Progress<()>)
    ensures
        agrees(r, *final(pos), repo_gc_flow(ws@, opts@, *out, replies.deep_view(), *old(pos) as int)),
{
    if let Err(f) = out.require_human("repo gc") {
        return Progress::Failed(f);
    }
    let repos = match chosen_repos(ws, &opts.repo_ref, replies, pos) {
        Progress::Done(r) => r,
        Progress::Ask(q) => {
            return Progress::Ask(q);
        },
        Progress::Failed(f) => {
            return Progress::Failed(f);
        },
    };
    if repos.len() == 0 {
        return say_info(out, "No repositories to clean", replies, pos);
    }
    match gc_each(out, opts.aggressive, &repos, replies, pos) {
        Progress::Done(_) => {},
        Progress::Ask(q) => {
            return Progress::Ask(q);
        },
        Progress::Failed(f) => {
            return Progress::Failed(f);
        },
    }
    say_success(out, "Garbage collection complete", replies, pos)
}

/// What the list says of a repository, piece by piece.
pub open spec fn repo_info(entry: RepoEntryView, cloned: bool) -> Seq<Seq<char>> {
    let lfs = match entry.lfs {
        LfsPolicy::Full => "lfs:full"@,
        LfsPolicy::Minimal => "lfs:minimal"@,
        LfsPolicy::Skip => "lfs:skip"@,
    };
    let depth = match entry.depth {
        DepthPolicy::Full => "depth:full"@,
        DepthPolicy::Depth(d) => "depth:"@ + decimal_text(d as nat),
    };
    let base = seq![lfs, depth];
    let with_clone = if cloned {
        base.push("cloned"@)
    } else {
        base
    };
    let with_upstream = match entry.upstream {
        Some(u) => with_clone.push("upstream:"@ + u),
        None => with_clone,
    };
    if entry.aliases.len() > 0 {
        with_upstream.push("aliases:"@ + join(entry.aliases, ","@))
    } else {
        with_upstream
    }
}

/// The line that lists a repository.
pub open spec fn repo_line(id: Seq<char>, entry: RepoEntryView, cloned: bool) -> Seq<char> {
    "  "@ + id + " ("@ + join(repo_info(entry, cloned), ", "@) + ")"@
}

/// Formats the line that lists a repository.
pub fn format_repo_line(id: &str, entry: &RepoEntry, cloned: bool) -> (line: String)
    ensures
        line@ == repo_line(id@, entry@, cloned),
{
    let mut info: Vec<String> = Vec::new();
    info.push(
        match entry.lfs {
            LfsPolicy::Full => "lfs:full".to_owned(),
            LfsPolicy::Minimal => "lfs:minimal".to_owned(),
            LfsPolicy::Skip => "lfs:skip".to_owned(),
        },
    );
    info.push(
        match entry.depth {
            DepthPolicy::Full => "depth:full".to_owned(),
            DepthPolicy::Depth(d) => {
                let n = format_decimal(d as u64);
                cat("depth:", n.as_str())
            },
        },
    );
    if cloned {
        info.push("cloned".to_owned());
    }
    if let Some(u) = &entry.upstream {
        info.push(cat("upstream:", u.as_str()));
    }
    if entry.aliases.len() > 0 {
        let all = join_strs(&entry.aliases, ",");
        info.push(cat("aliases:", all.as_str()));
    }
    assert(info.deep_view() == repo_info(entry@, cloned));
    let joined = join_strs(&info, ", ");
    cat4("  ", id, " (", cat(joined.as_str(), ")").as_str())
}

/// Whether the bare clone of a repository is there, for the list.
pub open spec fn cloned_flow(ws: WorkspaceView, id: Seq<char>, replies: Replies, pos: int)
    -> Outcome<bool> {
    match ws.bare_repo_path(id) {
        Err(_) => Outcome::Done(false, pos),
        Ok(bare) => match stat_step(replies, pos, bare) {
            Outcome::Done(kind, next) => Outcome::Done(kind != PathKind::Missing, next),
            Outcome::Ask(q) => Outcome::Ask(q),
            Outcome::Failed(f) => Outcome::Failed(f),
        },
    }
}

/// Listing the repositories from index `from` of the sorted IDs on.
pub open spec fn list_each_flow(
    ws: WorkspaceView,
    ids: Seq<Seq<char>>,
    from: int,
    replies: Replies,
    pos: int,
) -> Outcome<()>
    decreases ids.len() - from,
{
    if from < 0 || from >= ids.len() {
        Outcome::Done((), pos)
    } else if !has_key(ws.manifest, ids[from]) {
        list_each_flow(ws, ids, from + 1, replies, pos)
    } else {
        match cloned_flow(ws, ids[from], replies, pos) {
            Outcome::Done(cloned, p1) => match print_say(
                repo_line(
                    ids[from],
                    ws.manifest[index_of_key(ws.manifest, ids[from])].1,
                    cloned,
                ),
                replies,
                p1,
            ) {
                Outcome::Done(_, p2) => list_each_flow(ws, ids, from + 1, replies, p2),
                Outcome::Ask(q) => Outcome::Ask(q),
                Outcome::Failed(f) => Outcome::Failed(f),
            },
            Outcome::Ask(q) => Outcome::Ask(q),
            Outcome::Failed(f) => Outcome::Failed(f),
        }
    }
}

/// Listing the registered repositories, sorted by ID: a line each for a
/// human reader, and the registry as JSON where that is asked for.
pub open spec fn repo_list_flow(ws: WorkspaceView, out: Output, replies: Replies, pos: int)
    -> Outcome<()> {
    if ws.manifest.len() == 0 {
        info_say(out, "No repositories registered"@, replies, pos)
    } else if out.format == OutputFormat::Json {
        try_step(replies, pos, RequestView::PrintRegistry(ws.manifest))
    } else {
        list_each_flow(ws, sorted_listing(keys_of(ws.manifest)), 0, replies, pos)
    }
}

fn is_cloned(ws: &Workspace, id: &str, replies: &Vec<Reply>, pos: &mut usize) -> (r: Progress<bool>)
    ensures
        agrees(r, *final(pos), cloned_flow(ws@, id@, replies.deep_view(), *old(pos) as int)),
{
    match ws.bare_repo_path(id) {
        Ok(bare) => match ask_stat(replies, pos, bare.as_str()) {
            Progress::Done(kind) => Progress::Done(kind != PathKind::Missing),
            Progress::Ask(q) => Progress::Ask(q),
            Progress::Failed(f) => Progress::Failed(f),
        },
        Err(_) => Progress::Done(false),
    }
}

/// Lists the registered repositories.
pub fn repo_list(ws: &Workspace, out: &Output, replies: &Vec<Reply>, pos: &mut usize) -> (r: Progress<
    (),
>)
    ensures
        agrees(r, *final(pos), repo_list_flow(ws@, *out, replies.deep_view(), *old(pos) as int)),
{
    let n = ws.manifest.repos.len();
    if n == 0 {
        return say_info(out, "No repositories registered", replies, pos);
    }
    if let OutputFormat::Json = out.format {
        return try_ask(replies, pos, Request::PrintRegistry(ws.manifest.clone()));
    }
    let mut keys: Vec<&str> = Vec::new();
    let mut k: usize = 0;
    assert(keys.deep_view() == keys_of(ws@.manifest).take(0));
    while k < n
        invariant
            k <= n,
            n == ws@.manifest.len(),
            keys.deep_view() == keys_of(ws@.manifest).take(k as int),
        decreases n - k,
    {
        let ghost before = keys.deep_view();
        let key = ws.manifest.repos.key_at(k);
        keys.push(key);
        assert(keys.deep_view() == before.push(key@));
        assert(keys_of(ws@.manifest).take(k + 1) == keys_of(ws@.manifest).take(k as int).push(
            keys_of(ws@.manifest)[k as int],
        ));
        k += 1;
    }
    assert(keys_of(ws@.manifest).take(n as int) == keys_of(ws@.manifest));
    let ids = sort_strs(keys);
    let mut i: usize = 0;
    let ghost begin = *pos as int;
    while i < ids.len()
        invariant
            i <= ids.len(),
            begin == *old(pos) as int,
            list_each_flow(ws@, ids.deep_view(), 0, replies.deep_view(), begin) == list_each_flow(
                ws@,
                ids.deep_view(),
                i as int,
                replies.deep_view(),
                *pos as int,
            ),
            repo_list_flow(ws@, *out, replies.deep_view(), *old(pos) as int) == list_each_flow(
                ws@,
                ids.deep_view(),
                0,
                replies.deep_view(),
                begin,
            ),
        decreases ids.len() - i,
    {
        assert(ids.deep_view()[i as int] == ids[i as int]@);
        if let Some(entry) = ws.manifest.repos.get(ids[i]) {
            let cloned = match is_cloned(ws, ids[i], replies, pos) {
                Progress::Done(c) => c,
                Progress::Ask(q) => {
                    return Progress::Ask(q);
                },
                Progress::Failed(f) => {
                    return Progress::Failed(f);
                },
            };
            match say_print(format_repo_line(ids[i], entry, cloned), replies, pos) {
                Progress::Done(_) => {},
                Progress::Ask(q) => {
                    return Progress::Ask(q);
                },
                Progress::Failed(f) => {
                    return Progress::Failed(f);
                },
            }
        }
        i += 1;
    }
    Progress::Done(())
}

} // verus!
