//! The operations of the library, driven against a small world in memory:
//! a file system, a few bare repositories and an outer repository.

use std::collections::{BTreeMap, BTreeSet};

use wald::commands::branch::{branch, BranchOptions};
use wald::commands::doctor::{
    apply_fix, check_baum, doctor, paths_equal, DoctorOptions, FixAction, Severity,
};
use wald::commands::init::{init, InitOptions};
use wald::commands::move_cmd::{move_baum, MoveOptions};
use wald::commands::plant::{plant, PlantOptions};
use wald::commands::prune::{find_orphan, prune, prune_branches, Cleanup, PruneOptions};
use wald::commands::repo::{
    repo_add, repo_fetch, repo_gc, repo_list, repo_remove, RepoAddOptions, RepoFetchOptions,
    RepoGcOptions,
};
use wald::commands::status::status;
use wald::commands::sync::{decide_replay, replay_move, sync, ReplayAction, SyncOptions};
use wald::commands::uproot::{uproot, UprootOptions};
use wald::commands::worktrees::{worktrees, WorktreesOptions};
use wald::failure::{ErrorKind, Failure};
use wald::flow::{FoundBaum, PathKind, Progress, Reply, Request, Stream};
use wald::git::bare::{
    clone_bare, get_default_branch, has_branch, is_partial_clone, list_branches, CloneOptions,
};
use wald::git::shell::{get_head_commit, git_mv, worktree_move, worktree_prune, GitOutput};
use wald::git::worktree::{
    add_worktree, add_worktree_with_tracking, add_worktree_with_tracking_mode,
    has_unpushed_commits, list_wald_branches, list_worktrees, BranchMode,
};
use wald::output::{Output, OutputFormat};
use wald::paths::{join_path, normalize_path, parent_of, path_starts_with};
use wald::string_set::StringSet;
use wald::types::config::Config;
use wald::types::manifest::{
    BaumManifest, DepthPolicy, FilterPolicy, LfsPolicy, Manifest, RepoEntry,
};
use wald::types::repo_id::RepoId;
use wald::types::state::SyncState;
use wald::workspace::baum::{create_baum, is_baum, load_baum, save_baum};
use wald::workspace::discovery::{
    baum_ids, collect_baum_ids, find_all_baums, find_workspace_root_from, walk_filter, Workspace,
};
use wald::workspace::gitignore::{add_worktree_to_gitignore, ensure_gitignore_section};
use wald::workspace::path_safety::{canonicalize_partial, validate_workspace_path};

#[derive(Default, Clone)]
struct Branch {
    upstream: Option<String>,
    unpushed: u32,
}

#[derive(Default)]
struct Bare {
    local: BTreeMap<String, Branch>,
    remote: BTreeSet<String>,
    worktrees: Vec<(String, String)>,
    head: Option<String>,
    promisor: bool,
}

#[derive(Default)]
struct Incoming {
    new_head: String,
    moves: Vec<(String, String)>,
    diverged: bool,
}

#[derive(Default)]
struct World {
    cwd: String,
    dirs: BTreeSet<String>,
    files: BTreeMap<String, String>,
    baums: BTreeMap<String, BaumManifest>,
    broken: BTreeSet<String>,
    links: Vec<(String, String)>,
    manifests: BTreeMap<String, Manifest>,
    configs: BTreeMap<String, Config>,
    states: BTreeMap<String, SyncState>,
    bares: BTreeMap<String, Bare>,
    outer: String,
    outer_head: String,
    outer_dirty: String,
    incoming: Option<Incoming>,
    diff_output: String,
    pushed: u32,
    next_id: u32,
    said: Vec<String>,
    printed: Vec<String>,
    git_log: Vec<Vec<String>>,
    requests: u32,
}

fn ok(stdout: &str) -> Reply {
    Reply::Git(GitOutput {
        success: true,
        stdout: stdout.to_string(),
        stderr: String::new(),
    })
}

fn fail(stderr: &str) -> Reply {
    Reply::Git(GitOutput {
        success: false,
        stdout: String::new(),
        stderr: stderr.to_string(),
    })
}

fn under(path: &str, dir: &str) -> bool {
    path == dir || path.starts_with(&format!("{}/", dir.trim_end_matches('/')))
}

fn copy_baum(b: &BaumManifest) -> BaumManifest {
    b.clone()
}

impl World {
    fn new(root: &str) -> World {
        let mut w = World {
            cwd: root.to_string(),
            outer: root.to_string(),
            outer_head: "1111111111111111111111111111111111111111".to_string(),
            ..World::default()
        };
        w.mkdirs(root);
        w
    }

    fn mkdirs(&mut self, path: &str) {
        let mut p = normalize_path(path);
        loop {
            self.dirs.insert(p.clone());
            match parent_of(&p) {
                Some(up) if !up.is_empty() && up != p => p = up,
                _ => break,
            }
        }
    }

    fn kind(&self, path: &str) -> PathKind {
        let p = normalize_path(path);
        if self.dirs.contains(&p) {
            PathKind::Dir
        } else if self.files.contains_key(&p) {
            PathKind::File
        } else {
            PathKind::Missing
        }
    }

    fn remove_tree(&mut self, path: &str) {
        let p = normalize_path(path);
        self.dirs.retain(|d| !under(d, &p));
        self.files.retain(|f, _| !under(f, &p));
        self.baums.retain(|c, _| !under(&join_path(c, ".baum"), &p));
        for bare in self.bares.values_mut() {
            bare.worktrees.retain(|(w, _)| !under(w, &p));
        }
    }

    fn rename(&mut self, from: &str, to: &str) {
        let from = normalize_path(from);
        let to = normalize_path(to);
        let moved = |p: &str| format!("{}{}", to, &p[from.len()..]);
        let dirs: Vec<String> = self.dirs.iter().filter(|d| under(d, &from)).cloned().collect();
        for d in dirs {
            self.dirs.remove(&d);
            self.dirs.insert(moved(&d));
        }
        let files: Vec<String> = self.files.keys().filter(|f| under(f, &from)).cloned().collect();
        for f in files {
            let content = self.files.remove(&f).unwrap();
            self.files.insert(moved(&f), content);
        }
        let baums: Vec<String> = self
            .baums
            .keys()
            .filter(|c| under(&join_path(c, ".baum"), &from))
            .cloned()
            .collect();
        for c in baums {
            let b = self.baums.remove(&c).unwrap();
            let dir = moved(&join_path(&c, ".baum"));
            self.baums.insert(parent_of(&dir).unwrap(), b);
        }
    }

    fn is_empty(&self, path: &str) -> bool {
        let p = normalize_path(path);
        !self.dirs.iter().any(|d| d != &p && under(d, &p))
            && !self.files.keys().any(|f| under(f, &p))
    }

    fn canonical(&self, path: &str) -> Option<String> {
        if self.kind(path) == PathKind::Missing {
            return None;
        }
        let p = normalize_path(path);
        for (link, target) in &self.links {
            if under(&p, link) {
                return Some(format!("{}{}", target, &p[link.len()..]));
            }
        }
        Some(p)
    }

    fn plant_baum(&mut self, container: &str, baum: BaumManifest) {
        self.mkdirs(&join_path(container, ".baum"));
        self.baums.insert(container.to_string(), baum);
    }

    fn containers(&self, root: &str) -> Vec<String> {
        let root = normalize_path(root);
        let mut found = Vec::new();
        'dirs: for d in &self.dirs {
            if !under(d, &root) || self.kind(&join_path(d, ".baum")) != PathKind::Dir {
                continue;
            }
            let rest: Vec<&str> = d[root.len()..].split('/').filter(|s| !s.is_empty()).collect();
            let mut parent = root.rsplit('/').next().unwrap_or("").to_string();
            for name in rest {
                if !walk_filter(name, &parent, true) {
                    continue 'dirs;
                }
                parent = name.to_string();
            }
            found.push(d.clone());
        }
        found
    }

    fn fresh_id(&mut self, taken: &[String]) -> String {
        loop {
            self.next_id += 1;
            let id = format!("{:06x}", 0xabc000 + self.next_id);
            if !taken.contains(&id) {
                return id;
            }
        }
    }

    fn bare_of_worktree(&self, path: &str) -> Option<String> {
        for (bare, repo) in &self.bares {
            if repo.worktrees.iter().any(|(w, _)| w == path) {
                return Some(bare.clone());
            }
        }
        None
    }

    fn git(&mut self, args: Vec<String>) -> Reply {
        self.git_log.push(args.clone());
        let a: Vec<&str> = args.iter().map(|s| s.as_str()).collect();
        if a.first() == Some(&"clone") {
            return self.git_clone(&a);
        }
        if a.len() < 3 || a[0] != "-C" {
            return fail("usage");
        }
        let repo = a[1].to_string();
        let rest = &a[2..];
        if rest == ["init"] {
            self.mkdirs(&join_path(&repo, ".git"));
            return ok("");
        }
        if self.bares.contains_key(&repo) {
            return self.git_bare(&repo, rest);
        }
        if repo == self.outer {
            return self.git_outer(rest);
        }
        if rest == ["worktree", "repair"] {
            return ok("");
        }
        fail("fatal: not a git repository")
    }

    fn git_clone(&mut self, a: &[&str]) -> Reply {
        let target = a[a.len() - 1].to_string();
        if a.contains(&"--bare") {
            let url = a[a.len() - 2];
            if url.contains("missing") {
                return fail("fatal: repository not found\n");
            }
            self.mkdirs(&target);
            let mut bare = Bare::default();
            bare.remote.insert("main".to_string());
            bare.head = Some("refs/heads/main".to_string());
            bare.promisor = a.iter().any(|x| x.starts_with("--filter="));
            self.bares.insert(target, bare);
            return ok("");
        }
        self.mkdirs(&join_path(&target, ".wald"));
        self.manifests.insert(
            join_path(&join_path(&target, ".wald"), "manifest.yaml"),
            Manifest::default(),
        );
        self.outer = target;
        ok("")
    }

    fn git_outer(&mut self, rest: &[&str]) -> Reply {
        match rest {
            ["status", "--porcelain"] => ok(&self.outer_dirty.clone()),
            ["rev-parse", "HEAD"] => ok(&format!("{}\n", self.outer_head)),
            ["rev-list", "--left-right", "--count", _] => ok("2\t3\n"),
            ["pull", "--rebase", "--quiet"] => match self.incoming.take() {
                None => ok(""),
                Some(incoming) => {
                    if incoming.diverged {
                        self.incoming = Some(incoming);
                        return fail("fatal: Your branch and 'origin/main' have diverged\n");
                    }
                    let mut lines = String::new();
                    let root = self.outer.clone();
                    for (old, new) in &incoming.moves {
                        let from = join_path(&join_path(&root, old), ".baum");
                        let to = join_path(&join_path(&root, new), ".baum");
                        self.mkdirs(&join_path(&root, new));
                        self.rename(&from, &to);
                        // the ignore file of the container is tracked too
                        let ignore = join_path(&join_path(&root, old), ".gitignore");
                        if let Some(text) = self.files.remove(&ignore) {
                            self.files
                                .insert(join_path(&join_path(&root, new), ".gitignore"), text);
                        }
                        lines.push_str(&format!(
                            "R100\t{}/.baum/manifest.yaml\t{}/.baum/manifest.yaml\n",
                            old, new
                        ));
                    }
                    self.diff_output = lines;
                    self.outer_head = incoming.new_head;
                    ok("")
                }
            },
            ["diff", "-M", "--name-status", "--first-parent", "--diff-filter=R", _] => {
                ok(&self.diff_output.clone())
            }
            ["push", "--quiet"] => {
                self.pushed += 1;
                ok("")
            }
            ["add", ..] | ["rm", ..] | ["mv", ..] => ok(""),
            _ => fail("unknown outer command"),
        }
    }

    fn git_bare(&mut self, repo: &str, rest: &[&str]) -> Reply {
        match rest {
            ["rev-parse", "--verify", reference] => {
                let name = reference.trim_start_matches("refs/heads/");
                if self.bares[repo].local.contains_key(name) {
                    ok("0000\n")
                } else {
                    fail("fatal: Needed a single revision\n")
                }
            }
            ["rev-parse", "--abbrev-ref", spec] => {
                let name = spec.trim_end_matches("@{upstream}");
                match self.bares[repo].local.get(name).and_then(|b| b.upstream.clone()) {
                    Some(u) => ok(&format!("{}\n", u)),
                    None => fail("fatal: no upstream configured\n"),
                }
            }
            ["rev-list", "--count", range] => {
                let name = range.split("..").nth(1).unwrap_or("");
                match self.bares[repo].local.get(name) {
                    Some(b) => ok(&format!("{}\n", b.unpushed)),
                    None => fail("fatal: bad revision\n"),
                }
            }
            ["branch", "-f", name, start] => {
                let bare = self.bares.get_mut(repo).unwrap();
                let exists = match start.strip_prefix("origin/") {
                    Some(b) => bare.remote.contains(b),
                    None => *start == "HEAD" && bare.head.is_some(),
                };
                if !exists {
                    return fail(&format!("fatal: not a valid object name: '{}'\n", start));
                }
                bare.local.insert(name.to_string(), Branch::default());
                ok("")
            }
            ["branch", "--set-upstream-to", upstream, name] => {
                let bare = self.bares.get_mut(repo).unwrap();
                match bare.local.get_mut(*name) {
                    Some(b) => {
                        b.upstream = Some(upstream.to_string());
                        ok("")
                    }
                    None => fail("fatal: no such branch\n"),
                }
            }
            ["branch", flag @ ("-D" | "-d"), name] => {
                let bare = self.bares.get_mut(repo).unwrap();
                match bare.local.get(*name) {
                    None => fail(&format!("error: branch '{}' not found.\n", name)),
                    Some(b) if *flag == "-d" && b.unpushed > 0 => {
                        fail(&format!("error: The branch '{}' is not fully merged.\n", name))
                    }
                    Some(_) => {
                        bare.local.remove(*name);
                        ok("")
                    }
                }
            }
            ["branch", "--list", "wald/*"] => {
                let mut out = String::new();
                for name in self.bares[repo].local.keys() {
                    if name.starts_with("wald/") {
                        out.push_str(&format!("  {}\n", name));
                    }
                }
                ok(&out)
            }
            ["worktree", "add", path, name] => {
                if !self.bares[repo].local.contains_key(*name) {
                    return fail(&format!("fatal: invalid reference: {}\n", name));
                }
                if self.kind(path) != PathKind::Missing {
                    return fail(&format!("fatal: '{}' already exists\n", path));
                }
                self.mkdirs(path);
                self.files.insert(join_path(path, ".git"), "gitdir".to_string());
                self.bares
                    .get_mut(repo)
                    .unwrap()
                    .worktrees
                    .push((path.to_string(), name.to_string()));
                ok("")
            }
            ["worktree", "add", "-b", name, path, ..] => {
                self.bares
                    .get_mut(repo)
                    .unwrap()
                    .local
                    .insert(name.to_string(), Branch::default());
                let (path, name) = (path.to_string(), name.to_string());
                self.git_bare(repo, &["worktree", "add", &path, &name])
            }
            ["worktree", "remove", tail @ ..] => {
                let path = tail[tail.len() - 1].to_string();
                let bare = self.bares.get_mut(repo).unwrap();
                let before = bare.worktrees.len();
                bare.worktrees.retain(|(w, _)| *w != path);
                if bare.worktrees.len() == before {
                    return fail(&format!("fatal: '{}' is not a working tree\n", path));
                }
                self.remove_tree(&path);
                ok("")
            }
            ["worktree", "move", from, to] => {
                let bare = self.bares.get_mut(repo).unwrap();
                match bare.worktrees.iter_mut().find(|(w, _)| w == from) {
                    None => fail(&format!("fatal: '{}' is not a working tree\n", from)),
                    Some(entry) => {
                        entry.0 = to.to_string();
                        let (from, to) = (from.to_string(), to.to_string());
                        self.rename(&from, &to);
                        ok("")
                    }
                }
            }
            ["worktree", "list", "--porcelain"] => {
                let mut out = format!("worktree {}\nbare\n\n", repo);
                for (path, name) in &self.bares[repo].worktrees {
                    out.push_str(&format!(
                        "worktree {}\nHEAD 0000\nbranch refs/heads/{}\n\n",
                        path, name
                    ));
                }
                ok(&out)
            }
            ["worktree", "prune"] | ["worktree", "repair"] => ok(""),
            ["config", "--get", "remote.origin.promisor"] => {
                if self.bares[repo].promisor {
                    ok("true\n")
                } else {
                    fail("")
                }
            }
            ["config", "--unset", _] => {
                self.bares.get_mut(repo).unwrap().promisor = false;
                ok("")
            }
            ["fetch", ..] | ["gc", ..] => ok(""),
            _ => fail("unknown bare command"),
        }
    }

    fn perform(&mut self, request: Request) -> Reply {
        self.requests += 1;
        match request {
            Request::Git(args) => self.git(args),
            Request::Stat(p) => Reply::Kind(self.kind(&p)),
            Request::ReadText(p) => match self.kind(&p) {
                PathKind::Dir => Reply::Failed("is a directory".to_string()),
                _ => Reply::Text(self.files.get(&normalize_path(&p)).cloned()),
            },
            Request::WriteText(p, text) => {
                let p = normalize_path(&p);
                match parent_of(&p) {
                    Some(dir) if self.kind(&dir) == PathKind::Dir => {
                        self.files.insert(p, text);
                        Reply::Done
                    }
                    _ => Reply::Failed("no such directory".to_string()),
                }
            }
            Request::MakeDirs(p) => {
                self.mkdirs(&p);
                Reply::Done
            }
            Request::RemoveTree(p) => {
                self.remove_tree(&p);
                Reply::Done
            }
            Request::RemoveDir(p) => {
                if self.is_empty(&p) {
                    self.dirs.remove(&normalize_path(&p));
                    Reply::Done
                } else {
                    Reply::Failed("directory not empty".to_string())
                }
            }
            Request::RemoveFile(p) => match self.files.remove(&normalize_path(&p)) {
                Some(_) => Reply::Done,
                None => Reply::Failed("no such file".to_string()),
            },
            Request::Rename(a, b) => {
                if self.kind(&a) == PathKind::Missing {
                    return Reply::Failed("no such file or directory".to_string());
                }
                self.rename(&a, &b);
                Reply::Done
            }
            Request::CopyFile(a, b) => match self.files.get(&normalize_path(&a)).cloned() {
                Some(text) => {
                    self.files.insert(normalize_path(&b), text);
                    Reply::Done
                }
                None => Reply::Failed("no such file".to_string()),
            },
            Request::IsEmpty(p) => Reply::Flag(self.is_empty(&p)),
            Request::Canonical(p) => match self.canonical(&p) {
                Some(c) => Reply::Path(c),
                None => Reply::Failed("no such file or directory".to_string()),
            },
            Request::CurrentDir => Reply::Path(self.cwd.clone()),
            Request::LoadBaum(c) => {
                let c = normalize_path(&c);
                if self.broken.contains(&c) {
                    return Reply::Failed("invalid YAML".to_string());
                }
                match self.baums.get(&c) {
                    Some(b) => Reply::Baum(copy_baum(b)),
                    None => Reply::Failed("no such file".to_string()),
                }
            }
            Request::SaveBaum(c, baum) => {
                if self.kind(&join_path(&c, ".baum")) != PathKind::Dir {
                    return Reply::Failed("no such directory".to_string());
                }
                self.baums.insert(normalize_path(&c), baum);
                Reply::Done
            }
            Request::LoadManifest(p) => match self.manifests.get(&p) {
                Some(m) => Reply::Manifest(m.clone()),
                None => Reply::Failed("no such file".to_string()),
            },
            Request::SaveManifest(p, m) => {
                self.files.insert(p.clone(), "registry".to_string());
                self.manifests.insert(p, m);
                Reply::Done
            }
            Request::LoadConfig(p) => match self.configs.get(&p) {
                Some(c) => Reply::Config(*c),
                None => Reply::Failed("no such file".to_string()),
            },
            Request::SaveConfig(p, c) => {
                self.configs.insert(p, c);
                Reply::Done
            }
            Request::LoadState(p) => match self.states.get(&p) {
                Some(s) => Reply::State(s.clone()),
                None => Reply::Failed("no such file".to_string()),
            },
            Request::SaveState(p, s) => {
                self.states.insert(p, s);
                Reply::Done
            }
            Request::FindContainers(root) => Reply::Names(self.containers(&root)),
            Request::HeadTarget(bare) => match self.bares.get(&bare) {
                Some(b) => Reply::Name(b.head.clone()),
                None => Reply::Failed("could not find repository".to_string()),
            },
            Request::FindBranch(bare, name, remote) => match self.bares.get(&bare) {
                Some(b) => Reply::Flag(if remote {
                    name.strip_prefix("origin/").map(|n| b.remote.contains(n)).unwrap_or(false)
                } else {
                    b.local.contains_key(&name)
                }),
                None => Reply::Failed("could not find repository".to_string()),
            },
            Request::Branches(bare, remote) => match self.bares.get(&bare) {
                Some(b) => Reply::Names(if remote {
                    let mut names = vec!["origin/HEAD".to_string()];
                    names.extend(b.remote.iter().map(|n| format!("origin/{}", n)));
                    names
                } else {
                    b.local.keys().cloned().collect()
                }),
                None => Reply::Failed("could not find repository".to_string()),
            },
            Request::FreshId(taken) => Reply::Name(Some(self.fresh_id(&taken))),
            Request::PrintRegistry(m) => {
                self.printed.push(format!("registry of {}", m.repos.len()));
                Reply::Done
            }
            Request::PrintStatus(report) => {
                self.printed.push(format!("status {:?}", report));
                Reply::Done
            }
            Request::PrintWorktrees(all) => {
                self.printed.push(format!("worktrees {}", all.len()));
                Reply::Done
            }
            Request::Say(stream, line) => {
                match stream {
                    Stream::Stdout => self.printed.push(line),
                    Stream::Stderr => self.said.push(line),
                }
                Reply::Done
            }
        }
    }

    fn run<T>(
        &mut self,
        mut operation: impl FnMut(&Vec<Reply>, &mut usize) -> Progress<T>,
    ) -> Result<T, Failure> {
        let mut replies: Vec<Reply> = Vec::new();
        loop {
            let mut pos = 0;
            match operation(&replies, &mut pos) {
                Progress::Done(value) => {
                    assert_eq!(pos, replies.len());
                    return Ok(value);
                }
                Progress::Failed(failure) => return Err(failure),
                Progress::Ask(request) => {
                    let reply = self.perform(request);
                    replies.push(reply);
                }
            }
            assert!(replies.len() < 10_000);
        }
    }

    fn said_with(&self, part: &str) -> bool {
        self.said.iter().any(|l| l.contains(part))
    }
}

fn human() -> Output {
    Output::new(OutputFormat::Human, false)
}

/// A workspace at `/ws` with `github.com/u/r` registered and cloned.
fn workspace() -> (World, Workspace) {
    let mut world = World::new("/ws");
    world.mkdirs("/ws/.wald/repos");
    world.mkdirs("/ws/.git");
    let mut manifest = Manifest::default();
    manifest
        .repos
        .insert("github.com/u/r".to_string(), RepoEntry::default());
    let bare = "/ws/.wald/repos/github.com/u/r.git";
    world.mkdirs(bare);
    let mut repo = Bare::default();
    repo.remote.insert("main".to_string());
    repo.remote.insert("feature/foo".to_string());
    repo.head = Some("refs/heads/main".to_string());
    world.bares.insert(bare.to_string(), repo);
    world
        .manifests
        .insert("/ws/.wald/manifest.yaml".to_string(), manifest.clone());
    world
        .files
        .insert("/ws/.wald/manifest.yaml".to_string(), "registry".to_string());
    let ws = Workspace {
        root: "/ws".to_string(),
        manifest,
        config: Config::default(),
        state: SyncState::default(),
    };
    (world, ws)
}

const BARE: &str = "/ws/.wald/repos/github.com/u/r.git";

fn plant_options(repo: &str, container: &str, branches: &[&str]) -> PlantOptions {
    PlantOptions {
        repo_ref: repo.to_string(),
        container: container.to_string(),
        branches: branches.iter().map(|b| b.to_string()).collect(),
        force: false,
        reuse: false,
    }
}

fn do_plant(world: &mut World, ws: &Workspace, opts: &PlantOptions) -> Result<(), Failure> {
    world.run(|r, p| plant(ws, opts, &human(), r, p))
}

// ---------------------------------------------------------------- gitignore

const START: &str = "# wald:start (managed by wald, do not edit)";
const END: &str = "# wald:end";

#[test]
fn test_ensure_gitignore_section_creates_file() {
    let mut world = World::new("/ws");
    world
        .run(|r, p| ensure_gitignore_section("/ws", r, p))
        .unwrap();
    let content = &world.files["/ws/.gitignore"];
    assert!(content.contains(START));
    assert!(content.contains(END));
    assert!(content.contains(".wald/repos/"));
    assert!(content.contains(".wald/state.yaml"));
    assert!(content.contains("**/.baum/manifest.local.yaml"));
    assert!(content.contains("**/_*.wt/"));
    assert_eq!(
        content,
        "# wald:start (managed by wald, do not edit)\n.wald/repos/\n.wald/state.yaml\n**/.baum/manifest.local.yaml\n**/_*.wt/\n# wald:end\n"
    );
}

#[test]
fn test_ensure_gitignore_section_appends() {
    let mut world = World::new("/ws");
    world
        .files
        .insert("/ws/.gitignore".to_string(), "*.log\n".to_string());
    world
        .run(|r, p| ensure_gitignore_section("/ws", r, p))
        .unwrap();
    let content = &world.files["/ws/.gitignore"];
    assert!(content.starts_with("*.log"));
    assert!(content.contains(START));
}

#[test]
fn test_ensure_gitignore_section_idempotent() {
    let mut world = World::new("/ws");
    world
        .run(|r, p| ensure_gitignore_section("/ws", r, p))
        .unwrap();
    let first = world.files["/ws/.gitignore"].clone();
    let before = world.requests;
    world
        .run(|r, p| ensure_gitignore_section("/ws", r, p))
        .unwrap();
    let content = &world.files["/ws/.gitignore"];
    assert_eq!(content.matches(START).count(), 1);
    assert_eq!(content, &first);
    // the second time the file is read and not written
    assert_eq!(world.requests, before + 1);
}

#[test]
fn test_add_worktree_to_gitignore() {
    let mut world = World::new("/ws/c");
    world
        .run(|r, p| add_worktree_to_gitignore("/ws/c", "_main.wt", r, p))
        .unwrap();
    assert!(world.files["/ws/c/.gitignore"].contains("/_main.wt"));
    assert_eq!(world.files["/ws/c/.gitignore"], "/_main.wt\n");
}

#[test]
fn test_add_worktree_to_gitignore_idempotent() {
    let mut world = World::new("/ws/c");
    for _ in 0..2 {
        world
            .run(|r, p| add_worktree_to_gitignore("/ws/c", "_main.wt", r, p))
            .unwrap();
    }
    assert_eq!(world.files["/ws/c/.gitignore"].matches("/_main.wt").count(), 1);
}

#[test]
fn test_ensure_gitignore_section_repairs_incomplete() {
    let mut world = World::new("/ws");
    let incomplete = format!("*.log\n{}\n.wald/repos/\n{}\n", START, END);
    world.files.insert("/ws/.gitignore".to_string(), incomplete);
    world
        .run(|r, p| ensure_gitignore_section("/ws", r, p))
        .unwrap();
    let content = &world.files["/ws/.gitignore"];
    assert_eq!(content.matches(START).count(), 1);
    assert!(content.contains(".wald/repos/"));
    assert!(content.contains(".wald/state.yaml"));
    assert!(content.contains("**/.baum/manifest.local.yaml"));
    assert!(content.contains("**/_*.wt/"));
    assert!(content.contains("*.log"));
}

#[test]
fn gitignore_that_cannot_be_read_fails_the_operation() {
    let mut world = World::new("/ws");
    world.mkdirs("/ws/.gitignore");
    let err = world
        .run(|r, p| ensure_gitignore_section("/ws", r, p))
        .unwrap_err();
    assert_eq!(err.kind, ErrorKind::Filesystem);
    assert_eq!(
        err.message,
        "failed to read .gitignore: /ws/.gitignore: is a directory"
    );
}

// -------------------------------------------------------------- path safety

fn validate(world: &mut World, root: &str, path: &str) -> Result<String, Failure> {
    world.run(|r, p| validate_workspace_path(root, path, r, p))
}

#[test]
fn test_valid_simple_path() {
    let mut world = World::new("/ws");
    assert_eq!(validate(&mut world, "/ws", "tools/repo").unwrap(), "/ws/tools/repo");
}

#[test]
fn test_valid_nested_path() {
    let mut world = World::new("/ws");
    assert_eq!(
        validate(&mut world, "/ws", "research/2025/project/repo").unwrap(),
        "/ws/research/2025/project/repo"
    );
}

#[test]
fn test_rejects_escape_via_dotdot() {
    let mut world = World::new("/ws");
    let err = validate(&mut world, "/ws", "tools/../../outside").unwrap_err();
    assert!(err.message.contains("escapes"));
    assert_eq!(err.kind, ErrorKind::UserInput);
    assert_eq!(
        err.message,
        "path escapes workspace root: /outside is not under /ws"
    );
}

#[test]
fn test_allows_dotdot_within_workspace() {
    let mut world = World::new("/ws");
    assert_eq!(
        validate(&mut world, "/ws", "tools/../research/repo").unwrap(),
        "/ws/research/repo"
    );
}

#[test]
fn test_rejects_absolute_path_outside() {
    let mut world = World::new("/ws");
    world.mkdirs("/etc");
    world.files.insert("/etc/passwd".to_string(), String::new());
    let err = validate(&mut world, "/ws", "/etc/passwd").unwrap_err();
    assert!(err.message.contains("escapes"));
}

#[test]
fn test_allows_absolute_path_inside() {
    let mut world = World::new("/ws");
    assert_eq!(validate(&mut world, "/ws", "/ws/tools/repo").unwrap(), "/ws/tools/repo");
}

#[test]
fn test_cwd_relative_path() {
    let mut world = World::new("/ws");
    world.mkdirs("/ws/infrastructure/tools");
    world.cwd = "/ws/infrastructure/tools".to_string();
    assert_eq!(
        validate(&mut world, "/ws", "./dotfiles").unwrap(),
        "/ws/infrastructure/tools/dotfiles"
    );
}

#[test]
fn test_cwd_relative_parent() {
    let mut world = World::new("/ws");
    world.mkdirs("/ws/infrastructure/tools");
    world.cwd = "/ws/infrastructure/tools".to_string();
    assert_eq!(
        validate(&mut world, "/ws", "../dotfiles").unwrap(),
        "/ws/infrastructure/dotfiles"
    );
}

#[test]
fn test_cwd_relative_escapes_workspace() {
    let mut world = World::new("/tmp/ws");
    let err = validate(&mut world, "/tmp/ws", "../../outside").unwrap_err();
    assert!(err.message.contains("escapes"));
}

#[test]
fn test_real_directory() {
    let mut world = World::new("/ws");
    let resolved = validate(&mut world, "/ws", "tools/repo").unwrap();
    assert!(path_starts_with(&resolved, "/ws"));
}

#[test]
fn test_symlinked_workspace_root() {
    let mut world = World::new("/tmp/ws");
    world.mkdirs("/private/tmp/ws");
    world.links.push(("/tmp".to_string(), "/private/tmp".to_string()));
    let resolved = validate(&mut world, "/tmp/ws", "tools/repo").unwrap();
    assert!(path_starts_with(&resolved, "/tmp/ws") || path_starts_with(&resolved, "/private/tmp/ws"));
    assert_eq!(resolved, "/private/tmp/ws/tools/repo");
}

#[test]
fn test_canonicalize_partial() {
    let mut world = World::new("/tmp/ws");
    world.mkdirs("/tmp/ws/existing");
    world.links.push(("/tmp".to_string(), "/private/tmp".to_string()));
    let result = world
        .run(|r, p| canonicalize_partial("/tmp/ws/existing/new_dir/new_file.txt", r, p))
        .unwrap();
    assert!(path_starts_with(&result, "/private/tmp/ws/existing"));
    assert!(result.ends_with("new_dir/new_file.txt"));
    assert_eq!(result, "/private/tmp/ws/existing/new_dir/new_file.txt");
}

#[test]
fn symlink_out_of_the_workspace_is_an_escape() {
    let mut world = World::new("/ws");
    world.mkdirs("/ws/link");
    world.mkdirs("/elsewhere");
    world.links.push(("/ws/link".to_string(), "/elsewhere".to_string()));
    let err = validate(&mut world, "/ws", "link/x").unwrap_err();
    assert_eq!(
        err.message,
        "path escapes workspace root: /elsewhere/x is not under /ws"
    );
}

#[test]
fn dotdot_in_the_missing_part_of_an_absolute_path_is_resolved() {
    let mut world = World::new("/ws");
    let err = validate(&mut world, "/ws", "/ws/a/../../etc").unwrap_err();
    assert_eq!(err.kind, ErrorKind::UserInput);
    assert_eq!(err.message, "path escapes workspace root: /etc is not under /ws");
    assert_eq!(validate(&mut world, "/ws", "/ws/a/../b/./c").unwrap(), "/ws/b/c");
    assert_eq!(validate(&mut world, "/ws", "/ws/a/..").unwrap(), "/ws");
}

#[test]
fn canonical_form_resolves_dots_after_the_existing_prefix() {
    let mut world = World::new("/tmp/ws");
    world.mkdirs("/tmp/ws/existing");
    world.links.push(("/tmp".to_string(), "/private/tmp".to_string()));
    let result = world
        .run(|r, p| canonicalize_partial("/tmp/ws/existing/new/../../../other", r, p))
        .unwrap();
    assert_eq!(result, "/private/tmp/other");
}

// ------------------------------------------------------- baums and discovery

#[test]
fn test_is_baum() {
    let mut world = World::new("/ws/c");
    assert!(!world.run(|r, p| is_baum("/ws/c", r, p)).unwrap());
    world.mkdirs("/ws/c/.baum");
    assert!(world.run(|r, p| is_baum("/ws/c", r, p)).unwrap());
}

#[test]
fn test_create_baum() {
    let mut world = World::new("/ws");
    let manifest = world
        .run(|r, p| create_baum("/ws/my-baum", "github.com/user/repo", r, p))
        .unwrap();
    assert_eq!(manifest.repo_id, "github.com/user/repo");
    assert!(manifest.worktrees.is_empty());
    assert!(manifest.id.is_none());
    assert!(world.run(|r, p| is_baum("/ws/my-baum", r, p)).unwrap());
    assert_eq!(world.baums["/ws/my-baum"].repo_id, "github.com/user/repo");
}

#[test]
fn test_create_baum_fails_if_exists() {
    let mut world = World::new("/ws");
    world
        .run(|r, p| create_baum("/ws/my-baum", "github.com/user/repo", r, p))
        .unwrap();
    let err = world
        .run(|r, p| create_baum("/ws/my-baum", "github.com/user/other", r, p))
        .unwrap_err();
    assert_eq!(
        err.message,
        "baum already planted at /ws/my-baum: .baum directory exists"
    );
}

#[test]
fn test_create_baum_fails_if_file_exists() {
    let mut world = World::new("/ws");
    world
        .files
        .insert("/ws/my-baum".to_string(), "not a directory".to_string());
    let err = world
        .run(|r, p| create_baum("/ws/my-baum", "github.com/user/repo", r, p))
        .unwrap_err();
    assert_eq!(
        err.message,
        "container path exists but is not a directory: /ws/my-baum"
    );
}

#[test]
fn load_and_save_baum() {
    let mut world = World::new("/ws");
    let err = world.run(|r, p| load_baum("/ws/c", r, p)).unwrap_err();
    assert_eq!(err.message, "failed to load baum manifest: /ws/c: no such file");
    world.mkdirs("/ws/c/.baum");
    let mut baum = BaumManifest::new("github.com/u/r");
    baum.add_worktree("main", "_main.wt");
    world.run(|r, p| save_baum("/ws/c", &baum, r, p)).unwrap();
    let loaded = world.run(|r, p| load_baum("/ws/c", r, p)).unwrap();
    assert_eq!(loaded.worktrees.len(), 1);
    assert_eq!(loaded.worktrees[0].branch, "main");
}

#[test]
fn test_find_workspace_root() {
    let (mut world, _) = workspace();
    assert_eq!(
        world.run(|r, p| find_workspace_root_from("/ws", r, p)).unwrap(),
        "/ws"
    );
}

#[test]
fn test_find_workspace_root_from_subdir() {
    let (mut world, _) = workspace();
    world.mkdirs("/ws/sub/deep/dir");
    assert_eq!(
        world
            .run(|r, p| find_workspace_root_from("/ws/sub/deep/dir", r, p))
            .unwrap(),
        "/ws"
    );
}

#[test]
fn no_workspace_above() {
    let mut world = World::new("/elsewhere/a");
    let err = world
        .run(|r, p| find_workspace_root_from("/elsewhere/a", r, p))
        .unwrap_err();
    assert_eq!(err.kind, ErrorKind::Integrity);
    assert_eq!(
        err.message,
        "not a wald workspace (no .wald/ directory found in /elsewhere/a or any parent)"
    );
    // three directories were asked about: /elsewhere/a, /elsewhere and /
    assert_eq!(world.requests, 3);
}

#[test]
fn test_workspace_load() {
    let (mut world, _) = workspace();
    world
        .manifests
        .insert("/ws/.wald/manifest.yaml".to_string(), Manifest::default());
    let ws = world
        .run(|r, p| Workspace::load_from("/ws".to_string(), r, p))
        .unwrap();
    assert_eq!(ws.root, "/ws");
    assert!(ws.manifest.repos.is_empty());
    assert_eq!(ws.config, Config::default());
    assert!(ws.state.last_sync.is_none());
}

#[test]
fn workspace_load_needs_the_registry() {
    let mut world = World::new("/ws");
    world.mkdirs("/ws/.wald");
    let err = world
        .run(|r, p| Workspace::load_from("/ws".to_string(), r, p))
        .unwrap_err();
    assert_eq!(err.kind, ErrorKind::Integrity);
    assert_eq!(err.message, "failed to load manifest: no such file");
}

#[test]
fn workspace_load_from_the_current_directory() {
    let (mut world, _) = workspace();
    world.mkdirs("/ws/a/b");
    world.cwd = "/ws/a/b".to_string();
    world.states.insert(
        "/ws/.wald/state.yaml".to_string(),
        SyncState { last_sync: Some("abc".to_string()) },
    );
    let ws = world.run(|r, p| Workspace::load(r, p)).unwrap();
    assert_eq!(ws.root, "/ws");
    assert_eq!(ws.state.last_sync.as_deref(), Some("abc"));
    assert!(ws.manifest.has_repo("github.com/u/r"));
}

#[test]
fn test_workspace_init_creates_structure() {
    let mut world = World::new("/ws");
    world.run(|r, p| Workspace::init("/ws", false, r, p)).unwrap();
    assert_eq!(world.kind("/ws/.wald"), PathKind::Dir);
    assert_eq!(world.kind("/ws/.wald/repos"), PathKind::Dir);
    assert!(world.manifests.contains_key("/ws/.wald/manifest.yaml"));
    assert!(world.configs.contains_key("/ws/.wald/config.yaml"));
    assert!(world.states.contains_key("/ws/.wald/state.yaml"));
    assert!(world.files.contains_key("/ws/.gitignore"));
    let ws = world
        .run(|r, p| Workspace::load_from("/ws".to_string(), r, p))
        .unwrap();
    assert!(ws.manifest.repos.is_empty());
}

#[test]
fn test_workspace_init_fails_without_force() {
    let mut world = World::new("/ws");
    world.run(|r, p| Workspace::init("/ws", false, r, p)).unwrap();
    let err = world
        .run(|r, p| Workspace::init("/ws", false, r, p))
        .unwrap_err();
    assert!(err.message.contains("already exists"));
    assert_eq!(
        err.message,
        "workspace already exists at /ws (use --force to recreate)"
    );
}

#[test]
fn test_workspace_init_with_force() {
    let mut world = World::new("/ws");
    world.run(|r, p| Workspace::init("/ws", false, r, p)).unwrap();
    world
        .files
        .insert("/ws/.wald/marker.txt".to_string(), "test".to_string());
    world.run(|r, p| Workspace::init("/ws", true, r, p)).unwrap();
    assert!(!world.files.contains_key("/ws/.wald/marker.txt"));
    assert!(world.manifests.contains_key("/ws/.wald/manifest.yaml"));
}

#[test]
fn test_workspace_init_no_nesting() {
    let mut world = World::new("/ws");
    world.run(|r, p| Workspace::init("/ws", false, r, p)).unwrap();
    world.mkdirs("/ws/child");
    let err = world
        .run(|r, p| Workspace::init("/ws/child", false, r, p))
        .unwrap_err();
    assert!(err.message.contains("nested"));
    assert_eq!(
        err.message,
        "cannot create nested workspace: already inside workspace at /ws"
    );
}

#[test]
fn test_is_git_repo() {
    let mut world = World::new("/ws");
    assert!(!world.run(|r, p| Workspace::is_git_repo("/ws", r, p)).unwrap());
    world.mkdirs("/ws/.git");
    assert!(world.run(|r, p| Workspace::is_git_repo("/ws", r, p)).unwrap());
}

#[test]
fn workspace_paths() {
    let (_, ws) = workspace();
    assert_eq!(ws.wald_dir(), "/ws/.wald");
    assert_eq!(ws.repos_dir(), "/ws/.wald/repos");
    assert_eq!(ws.manifest_path(), "/ws/.wald/manifest.yaml");
    assert_eq!(ws.config_path(), "/ws/.wald/config.yaml");
    assert_eq!(ws.state_path(), "/ws/.wald/state.yaml");
    assert_eq!(ws.bare_repo_path("github.com/u/r").unwrap(), BARE);
    assert_eq!(
        ws.bare_repo_path("git.zib.de/iol/research/project").unwrap(),
        "/ws/.wald/repos/git.zib.de/iol/research/project.git"
    );
    assert!(ws.bare_repo_path("nonsense").is_err());
    assert_eq!(ws.resolve_repo("r"), Some("github.com/u/r"));
    assert_eq!(ws.resolve_repo("u/r"), Some("github.com/u/r"));
    assert_eq!(ws.resolve_repo("x"), None);
}

#[test]
fn bare_repo_presence_and_saving() {
    let (mut world, mut ws) = workspace();
    assert!(world.run(|r, p| ws.has_bare_repo("github.com/u/r", r, p)).unwrap());
    assert!(!world.run(|r, p| ws.has_bare_repo("github.com/u/other", r, p)).unwrap());
    assert!(!world.run(|r, p| ws.has_bare_repo("nonsense", r, p)).unwrap());
    ws.state.update_last_sync("abc");
    world.run(|r, p| ws.save_state(r, p)).unwrap();
    assert_eq!(
        world.states["/ws/.wald/state.yaml"].last_sync.as_deref(),
        Some("abc")
    );
    ws.manifest.repos.remove("github.com/u/r");
    world.run(|r, p| ws.save_manifest(r, p)).unwrap();
    assert!(world.manifests["/ws/.wald/manifest.yaml"].repos.is_empty());
}

#[test]
fn walk_stays_out_of_what_holds_no_baums() {
    assert!(walk_filter("tools", "ws", true));
    assert!(!walk_filter(".git", "ws", true));
    assert!(!walk_filter("repos", ".wald", true));
    assert!(walk_filter("repos", "tools", true));
    assert!(!walk_filter("_main.wt", "x", true));
    assert!(walk_filter("_main.wt", "x", false));
    assert!(walk_filter("_main", "x", true));
    assert!(!walk_filter(".baum", "x", true));
    assert!(walk_filter(".wald", "ws", true));
}

#[test]
fn baums_are_found_with_their_descriptors() {
    let (mut world, ws) = workspace();
    let mut a = BaumManifest::new("github.com/u/r");
    a.id = Some("abc123".to_string());
    world.plant_baum("/ws/tools/a", a);
    world.plant_baum("/ws/b", BaumManifest::new("github.com/u/r"));
    world.mkdirs("/ws/broken/.baum");
    world.mkdirs("/ws/tools/a/_main.wt/nested/.baum");
    world.mkdirs("/ws/.wald/repos/x/.baum");
    let found = world.run(|r, p| find_all_baums("/ws", r, p)).unwrap();
    let paths: Vec<&str> = found.iter().map(|f| f.path.as_str()).collect();
    assert_eq!(paths, vec!["/ws/b", "/ws/tools/a"]);
    let ids = world.run(|r, p| collect_baum_ids("/ws", r, p)).unwrap();
    assert_eq!(ids.to_vec(), vec!["abc123"]);
    let ids = world.run(|r, p| ws.collect_baum_ids(r, p)).unwrap();
    assert!(ids.contains("abc123"));
    assert_eq!(world.run(|r, p| ws.find_all_baums(r, p)).unwrap().len(), 2);
}

#[test]
fn baum_ids_are_listed_once() {
    let make = |path: &str, id: Option<&str>| FoundBaum {
        path: path.to_string(),
        baum: BaumManifest {
            id: id.map(|s| s.to_string()),
            repo_id: "github.com/u/r".to_string(),
            worktrees: vec![],
        },
    };
    let found = vec![
        make("/a", Some("bbbbbb")),
        make("/b", None),
        make("/c", Some("aaaaaa")),
        make("/d", Some("bbbbbb")),
    ];
    assert_eq!(baum_ids(&found).to_vec(), vec!["bbbbbb", "aaaaaa"]);
}

// ------------------------------------------------------------ bare clones

#[test]
fn default_branch_is_what_head_names() {
    let (mut world, _) = workspace();
    assert_eq!(world.run(|r, p| get_default_branch(BARE, r, p)).unwrap(), "main");
    world.bares.get_mut(BARE).unwrap().head = Some("refs/heads/trunk".to_string());
    assert_eq!(world.run(|r, p| get_default_branch(BARE, r, p)).unwrap(), "trunk");
}

#[test]
fn default_branch_falls_back_to_main_then_master() {
    let (mut world, _) = workspace();
    let bare = world.bares.get_mut(BARE).unwrap();
    bare.head = None;
    bare.remote.insert("master".to_string());
    assert_eq!(world.run(|r, p| get_default_branch(BARE, r, p)).unwrap(), "main");
    let bare = world.bares.get_mut(BARE).unwrap();
    bare.remote.remove("main");
    bare.head = Some("refs/tags/v1".to_string());
    assert_eq!(world.run(|r, p| get_default_branch(BARE, r, p)).unwrap(), "master");
    world.bares.get_mut(BARE).unwrap().remote.remove("master");
    let err = world.run(|r, p| get_default_branch(BARE, r, p)).unwrap_err();
    assert_eq!(
        err.message,
        format!("could not determine default branch for {}", BARE)
    );
    let err = world.run(|r, p| get_default_branch("/nowhere", r, p)).unwrap_err();
    assert_eq!(
        err.message,
        "failed to open bare repo: /nowhere: could not find repository"
    );
}

#[test]
fn branches_are_listed_without_repetition() {
    let (mut world, _) = workspace();
    world
        .bares
        .get_mut(BARE)
        .unwrap()
        .local
        .insert("main".to_string(), Branch::default());
    world
        .bares
        .get_mut(BARE)
        .unwrap()
        .local
        .insert("local-only".to_string(), Branch::default());
    assert_eq!(
        world.run(|r, p| list_branches(BARE, r, p)).unwrap(),
        vec!["local-only", "main", "HEAD", "feature/foo"]
    );
    assert!(world.run(|r, p| has_branch(BARE, "feature/foo", r, p)).unwrap());
    assert!(world.run(|r, p| has_branch(BARE, "local-only", r, p)).unwrap());
    assert!(!world.run(|r, p| has_branch(BARE, "nope", r, p)).unwrap());
}

#[test]
fn bare_clone_is_made_with_depth_and_filter() {
    let mut world = World::new("/ws");
    let id = RepoId::parse("github.com/user/repo").unwrap();
    let opts = CloneOptions { depth: Some(50), filter: Some("blob:none".to_string()) };
    world
        .run(|r, p| clone_bare(&id, "/ws/.wald/repos/github.com/user/repo.git", &opts, r, p))
        .unwrap();
    assert_eq!(
        world.git_log[0],
        vec![
            "clone",
            "--bare",
            "--quiet",
            "--depth=50",
            "--filter=blob:none",
            "git@github.com:user/repo.git",
            "/ws/.wald/repos/github.com/user/repo.git"
        ]
    );
    assert_eq!(world.kind("/ws/.wald/repos/github.com/user"), PathKind::Dir);
    assert!(world
        .run(|r, p| is_partial_clone("/ws/.wald/repos/github.com/user/repo.git", r, p))
        .unwrap());
    // a second clone to the same place is refused
    let err = world
        .run(|r, p| clone_bare(&id, "/ws/.wald/repos/github.com/user/repo.git", &opts, r, p))
        .unwrap_err();
    assert_eq!(err.kind, ErrorKind::Precondition);
    assert_eq!(
        err.message,
        "bare repo already exists: /ws/.wald/repos/github.com/user/repo.git"
    );
    // a full clone has neither argument
    world
        .run(|r, p| clone_bare(&id, "/ws/full.git", &CloneOptions::default(), r, p))
        .unwrap();
    assert_eq!(
        world.git_log.last().unwrap(),
        &vec!["clone", "--bare", "--quiet", "git@github.com:user/repo.git", "/ws/full.git"]
    );
    let missing = RepoId::parse("github.com/user/missing").unwrap();
    let err = world
        .run(|r, p| clone_bare(&missing, "/ws/m.git", &CloneOptions::default(), r, p))
        .unwrap_err();
    assert_eq!(err.kind, ErrorKind::Git);
    assert_eq!(
        err.message,
        "git clone failed for github.com/user/missing: fatal: repository not found"
    );
}

// ------------------------------------------------------ tracking branches

fn track(world: &mut World, branch: &str, mode: BranchMode) -> Result<String, Failure> {
    let path = format!("/ws/c/_{}.wt", branch.replace('/', "--"));
    world.run(|r, p| add_worktree_with_tracking_mode(BARE, &path, branch, "abc123", mode, r, p))
}

#[test]
fn tracking_branch_is_created_at_the_remote_branch() {
    let (mut world, _) = workspace();
    world.mkdirs("/ws/c");
    let local = track(&mut world, "main", BranchMode::Default).unwrap();
    assert_eq!(local, "wald/abc123/main");
    let bare = &world.bares[BARE];
    assert_eq!(
        bare.local["wald/abc123/main"].upstream.as_deref(),
        Some("origin/main")
    );
    assert_eq!(
        bare.worktrees,
        vec![("/ws/c/_main.wt".to_string(), "wald/abc123/main".to_string())]
    );
    let commands: Vec<String> = world.git_log.iter().map(|a| a[2..].join(" ")).collect();
    assert_eq!(
        commands,
        vec![
            "rev-parse --verify refs/heads/wald/abc123/main",
            "branch -f wald/abc123/main origin/main",
            "branch --set-upstream-to origin/main wald/abc123/main",
            "worktree add /ws/c/_main.wt wald/abc123/main",
        ]
    );
}

#[test]
fn tracking_branch_falls_back_to_head() {
    let (mut world, _) = workspace();
    world.mkdirs("/ws/c");
    let local = track(&mut world, "brand-new", BranchMode::Default).unwrap();
    assert_eq!(local, "wald/abc123/brand-new");
    let commands: Vec<String> = world.git_log.iter().map(|a| a[2..].join(" ")).collect();
    assert_eq!(commands[1], "branch -f wald/abc123/brand-new origin/brand-new");
    assert_eq!(commands[2], "branch -f wald/abc123/brand-new HEAD");
    // neither the remote branch nor HEAD
    world.bares.get_mut(BARE).unwrap().head = None;
    let err = track(&mut world, "other", BranchMode::Default).unwrap_err();
    assert_eq!(err.kind, ErrorKind::Git);
    assert_eq!(
        err.message,
        "failed to create branch wald/abc123/other: remote 'origin/other' not found and no HEAD: fatal: not a valid object name: 'HEAD'"
    );
}

#[test]
fn existing_tracking_branch_by_mode() {
    for (mode, unpushed, expect_ok) in [
        (BranchMode::Default, 0, true),
        (BranchMode::Default, 2, false),
        (BranchMode::Reuse, 0, true),
        (BranchMode::Reuse, 2, false),
        (BranchMode::Force, 0, true),
        (BranchMode::Force, 2, true),
    ] {
        let (mut world, _) = workspace();
        world.mkdirs("/ws/c");
        world.bares.get_mut(BARE).unwrap().local.insert(
            "wald/abc123/main".to_string(),
            Branch { upstream: Some("origin/main".to_string()), unpushed },
        );
        let result = track(&mut world, "main", mode);
        assert_eq!(result.is_ok(), expect_ok, "{:?} {}", mode, unpushed);
        let commands: Vec<String> = world.git_log.iter().map(|a| a[2..].join(" ")).collect();
        match (mode, result) {
            (BranchMode::Force, Ok(local)) => {
                assert_eq!(local, "wald/abc123/main");
                assert_eq!(commands[1], "branch -D wald/abc123/main");
                assert!(!commands.iter().any(|c| c.starts_with("rev-list")));
                assert_eq!(world.bares[BARE].local["wald/abc123/main"].unpushed, 0);
            }
            (BranchMode::Reuse, Ok(local)) => {
                assert_eq!(local, "wald/abc123/main");
                assert!(!commands.iter().any(|c| c.starts_with("branch ")));
            }
            (BranchMode::Default, Ok(_)) => {
                assert!(commands.contains(&"branch -f wald/abc123/main origin/main".to_string()));
            }
            (BranchMode::Reuse, Err(e)) => {
                assert_eq!(e.kind, ErrorKind::Precondition);
                assert_eq!(
                    e.message,
                    "branch 'wald/abc123/main' has unpushed commits; use --force to discard or push changes first"
                );
                assert!(world.bares[BARE].worktrees.is_empty());
            }
            (BranchMode::Default, Err(e)) => {
                assert_eq!(
                    e.message,
                    "branch 'wald/abc123/main' exists with unpushed commits; use --force to overwrite or --reuse to keep"
                );
                assert_eq!(world.bares[BARE].local["wald/abc123/main"].unpushed, 2);
            }
            (BranchMode::Force, Err(_)) => unreachable!(),
        }
    }
}

#[test]
fn tracking_default_mode_is_the_default() {
    let (mut world, _) = workspace();
    world.mkdirs("/ws/c");
    let local = world
        .run(|r, p| add_worktree_with_tracking(BARE, "/ws/c/_main.wt", "main", "def456", r, p))
        .unwrap();
    assert_eq!(local, "wald/def456/main");
}

#[test]
fn unpushed_commits_are_counted_against_the_upstream() {
    let (mut world, _) = workspace();
    let bare = world.bares.get_mut(BARE).unwrap();
    bare.local.insert("none".to_string(), Branch::default());
    bare.local.insert(
        "level".to_string(),
        Branch { upstream: Some("origin/main".to_string()), unpushed: 0 },
    );
    bare.local.insert(
        "ahead".to_string(),
        Branch { upstream: Some("origin/main".to_string()), unpushed: 3 },
    );
    assert!(!world.run(|r, p| has_unpushed_commits(BARE, "none", r, p)).unwrap());
    assert!(!world.run(|r, p| has_unpushed_commits(BARE, "level", r, p)).unwrap());
    assert!(world.run(|r, p| has_unpushed_commits(BARE, "ahead", r, p)).unwrap());
    assert_eq!(
        world.git_log.last().unwrap()[2..].join(" "),
        "rev-list --count origin/main..ahead"
    );
}

#[test]
fn unpushed_check_is_careful_where_counting_fails() {
    let replies = vec![ok("origin/main\n"), fail("fatal: bad revision")];
    let mut pos = 0;
    match has_unpushed_commits(BARE, "x", &replies, &mut pos) {
        Progress::Done(unpushed) => assert!(unpushed),
        _ => panic!("expected an answer"),
    }
    let replies = vec![ok("origin/main\n"), ok("not a number\n")];
    let mut pos = 0;
    match has_unpushed_commits(BARE, "x", &replies, &mut pos) {
        Progress::Done(unpushed) => assert!(!unpushed),
        _ => panic!("expected an answer"),
    }
    let replies = vec![Reply::Failed("cannot run git".to_string())];
    let mut pos = 0;
    match has_unpushed_commits(BARE, "x", &replies, &mut pos) {
        Progress::Failed(f) => {
            assert_eq!(f.kind, ErrorKind::Git);
            assert_eq!(f.message, "failed to check upstream for x: cannot run git");
        }
        _ => panic!("expected a failure"),
    }
    let replies = vec![Reply::Flag(true)];
    let mut pos = 0;
    match has_unpushed_commits(BARE, "x", &replies, &mut pos) {
        Progress::Failed(f) => assert_eq!(f.kind, ErrorKind::Driver),
        _ => panic!("expected a failure"),
    }
}

#[test]
fn plain_worktree_creates_the_branch_where_it_is_missing() {
    let (mut world, _) = workspace();
    world.mkdirs("/ws/c");
    world
        .run(|r, p| add_worktree(BARE, "/ws/c/_main.wt", "main", r, p))
        .unwrap();
    let commands: Vec<String> = world.git_log.iter().map(|a| a[2..].join(" ")).collect();
    assert_eq!(
        commands,
        vec![
            "worktree add /ws/c/_main.wt main",
            "worktree add -b main /ws/c/_main.wt origin/main",
        ]
    );
    let listed = world.run(|r, p| list_worktrees(BARE, r, p)).unwrap();
    assert_eq!(listed.len(), 2);
    assert!(listed[0].bare);
    assert_eq!(listed[1].path, "/ws/c/_main.wt");
    assert_eq!(listed[1].branch.as_deref(), Some("main"));
    assert!(world.run(|r, p| list_wald_branches(BARE, r, p)).unwrap().is_empty());
}

// ------------------------------------------------------------- scenarios

fn fresh_workspace() -> (World, Workspace) {
    let mut world = World::new("/ws");
    world.mkdirs("/ws/.git");
    world.run(|r, p| Workspace::init("/ws", false, r, p)).unwrap();
    let ws = world
        .run(|r, p| Workspace::load_from("/ws".to_string(), r, p))
        .unwrap();
    (world, ws)
}

fn register(world: &mut World, ws: &mut Workspace, repo_id: &str) {
    let opts = RepoAddOptions {
        repo_id: repo_id.to_string(),
        lfs: None,
        depth: None,
        filter: None,
        upstream: None,
        aliases: vec![],
        clone: true,
    };
    ws.manifest = world.run(|r, p| repo_add(ws, &opts, &human(), r, p)).unwrap();
}

#[test]
fn scenario_plant_then_branch() {
    let (mut world, mut ws) = fresh_workspace();
    register(&mut world, &mut ws, "github.com/u/r");
    do_plant(&mut world, &ws, &plant_options("github.com/u/r", "tools/x", &["main"])).unwrap();
    let opts = BranchOptions {
        baum_path: "tools/x".to_string(),
        branch: "feature/foo".to_string(),
        force: false,
        reuse: false,
    };
    world.run(|r, p| branch(&ws, &opts, &human(), r, p)).unwrap();

    let baum = &world.baums["/ws/tools/x"];
    let id = baum.id.clone().unwrap();
    assert_eq!(id.len(), 6);
    let paths: Vec<&str> = baum.worktrees.iter().map(|w| w.path.as_str()).collect();
    assert_eq!(paths, vec!["_main.wt", "_feature--foo.wt"]);
    let branches: Vec<&str> = baum.worktrees.iter().map(|w| w.branch.as_str()).collect();
    assert_eq!(branches, vec!["main", "feature/foo"]);
    assert_eq!(
        baum.worktrees[1].local_branch,
        Some(format!("wald/{}/feature/foo", id))
    );
    let bare = &world.bares[BARE];
    assert!(bare.local.contains_key(&format!("wald/{}/main", id)));
    assert!(bare.local.contains_key(&format!("wald/{}/feature/foo", id)));
    let ignore = &world.files["/ws/tools/x/.gitignore"];
    assert!(ignore.lines().any(|l| l == "/_main.wt"));
    assert!(ignore.lines().any(|l| l == "/_feature--foo.wt"));
    assert_eq!(world.kind("/ws/tools/x/_main.wt"), PathKind::Dir);
    assert_eq!(world.kind("/ws/tools/x/_feature--foo.wt"), PathKind::Dir);
    assert_eq!(
        world.said,
        vec![
            format!("{:>12} {}", "Cloning", "github.com/u/r"),
            format!("{:>12} {}", "Done", "Added repository: github.com/u/r"),
            format!("{:>12} {}", "Planting", "github.com/u/r at tools/x"),
            format!("{:>12} {}", "Creating worktree", "main -> _main.wt"),
            format!("{:>12} {}", "Done", "Planted github.com/u/r with 1 worktree(s)"),
            format!("{:>12} {}", "Adding worktree", "feature/foo -> _feature--foo.wt"),
            format!("{:>12} {}", "Done", "Added worktree for branch: feature/foo"),
        ]
    );
}

#[test]
fn scenario_ambiguous_reference() {
    let (mut world, mut ws) = fresh_workspace();
    register(&mut world, &mut ws, "gitlab.com/bob/repo");
    register(&mut world, &mut ws, "github.com/alice/repo");
    let err = do_plant(&mut world, &ws, &plant_options("repo", "tools/x", &[])).unwrap_err();
    assert_eq!(err.kind, ErrorKind::UserInput);
    assert_eq!(
        err.message,
        "'repo' is ambiguous, could be:\n  github.com/alice/repo\n  gitlab.com/bob/repo"
    );
    assert!(world.baums.is_empty());
    assert_eq!(world.kind("/ws/tools/x"), PathKind::Missing);
}

#[test]
fn scenario_rename_replay() {
    let (mut world, mut ws) = fresh_workspace();
    register(&mut world, &mut ws, "github.com/u/r");
    do_plant(&mut world, &ws, &plant_options("r", "tools/x", &["main"])).unwrap();
    world.incoming = Some(Incoming {
        new_head: "2222222222222222222222222222222222222222".to_string(),
        moves: vec![("tools/x".to_string(), "admin/x".to_string())],
        diverged: false,
    });
    let opts = SyncOptions { dry_run: false, force: false, push: false };
    let state = world.run(|r, p| sync(&ws, &opts, &human(), r, p)).unwrap();

    assert_eq!(
        state.last_sync.as_deref(),
        Some("2222222222222222222222222222222222222222")
    );
    assert_eq!(
        world.states["/ws/.wald/state.yaml"].last_sync,
        state.last_sync
    );
    assert_eq!(world.kind("/ws/tools/x"), PathKind::Missing);
    assert!(world.run(|r, p| is_baum("/ws/admin/x", r, p)).unwrap());
    assert_eq!(world.kind("/ws/admin/x/_main.wt"), PathKind::Dir);
    let listed = world.run(|r, p| list_worktrees(BARE, r, p)).unwrap();
    assert_eq!(listed[1].path, "/ws/admin/x/_main.wt");
    assert!(world.said_with("tools/x -> admin/x"));
    assert!(world.said_with("1 baum move(s)"));
    assert!(world.said_with("Sync complete"));
    let diff = world
        .git_log
        .iter()
        .find(|a| a.contains(&"diff".to_string()))
        .unwrap();
    assert_eq!(
        diff.last().unwrap(),
        "1111111111111111111111111111111111111111..2222222222222222222222222222222222222222"
    );
}

#[test]
fn scenario_path_escape_rejection() {
    let (mut world, mut ws) = fresh_workspace();
    register(&mut world, &mut ws, "github.com/u/r");
    let err =
        do_plant(&mut world, &ws, &plant_options("github.com/u/r", "../../evil", &["main"]))
            .unwrap_err();
    assert!(err.message.contains("escapes workspace root"));
    assert_eq!(err.kind, ErrorKind::UserInput);
    assert!(world.baums.is_empty());
    assert!(world.bares[BARE].worktrees.is_empty());
}

#[test]
fn scenario_reuse_with_unpushed_commits() {
    let (mut world, mut ws) = fresh_workspace();
    register(&mut world, &mut ws, "github.com/u/r");
    do_plant(&mut world, &ws, &plant_options("r", "tools/x", &["main"])).unwrap();
    let id = world.baums["/ws/tools/x"].id.clone().unwrap();
    let local = format!("wald/{}/main", id);
    world.bares.get_mut(BARE).unwrap().local.get_mut(&local).unwrap().unpushed = 1;
    // the worktree goes, the branch stays
    let prune_opts = PruneOptions {
        baum_path: "tools/x".to_string(),
        branches: vec!["main".to_string()],
        force: false,
    };
    world.run(|r, p| prune(&ws, &prune_opts, &human(), r, p)).unwrap();
    assert!(world.baums["/ws/tools/x"].worktrees.is_empty());
    assert!(world.bares[BARE].local.contains_key(&local));

    let mut opts = plant_options("", "tools/x", &["main"]);
    opts.reuse = true;
    let err = do_plant(&mut world, &ws, &opts).unwrap_err();
    assert_eq!(
        err.message,
        format!(
            "branch '{}' has unpushed commits; use --force to discard or push changes first",
            local
        )
    );
    assert!(world.baums["/ws/tools/x"].worktrees.is_empty());
    assert_eq!(world.baums["/ws/tools/x"].id.as_deref(), Some(id.as_str()));

    opts.reuse = false;
    opts.force = true;
    do_plant(&mut world, &ws, &opts).unwrap();
    assert_eq!(world.bares[BARE].local[&local].unpushed, 0);
    assert_eq!(
        world.bares[BARE].local[&local].upstream.as_deref(),
        Some("origin/main")
    );
    assert_eq!(world.baums["/ws/tools/x"].worktrees.len(), 1);
    assert_eq!(world.baums["/ws/tools/x"].id.as_deref(), Some(id.as_str()));
    assert!(world.said_with("Added 1 worktree(s) to baum"));
}

#[test]
fn scenario_workspace_wide_branch_cleanup() {
    let (mut world, mut ws) = fresh_workspace();
    register(&mut world, &mut ws, "github.com/u/r");
    for container in ["a", "b", "c"] {
        do_plant(&mut world, &ws, &plant_options("r", container, &["main", "feature/foo"]))
            .unwrap();
    }
    let id_of = |w: &World, c: &str| w.baums[&format!("/ws/{}", c)].id.clone().unwrap();
    let (a, b, c) = (id_of(&world, "a"), id_of(&world, "b"), id_of(&world, "c"));
    assert!(a != b && b != c && a != c);
    // one worktree is pruned, one descriptor is deleted by hand
    let prune_opts = PruneOptions {
        baum_path: "a".to_string(),
        branches: vec!["feature/foo".to_string()],
        force: false,
    };
    world.run(|r, p| prune(&ws, &prune_opts, &human(), r, p)).unwrap();
    world.remove_tree("/ws/b/.baum");
    // of the orphans of b, one holds work that was not pushed
    let kept = format!("wald/{}/main", b);
    {
        let branch = world.bares.get_mut(BARE).unwrap().local.get_mut(&kept).unwrap();
        branch.unpushed = 4;
        branch.upstream = Some("origin/main".to_string());
    }
    world.said.clear();

    let count = world
        .run(|r, p| prune_branches(&ws, false, &human(), r, p))
        .unwrap();
    assert_eq!(count, Cleanup { removed: 2, skipped: 1 });
    let left: Vec<String> = world.bares[BARE].local.keys().cloned().collect();
    let mut expected = vec![
        format!("wald/{}/main", a),
        kept.clone(),
        format!("wald/{}/feature/foo", c),
        format!("wald/{}/main", c),
    ];
    expected.sort();
    assert_eq!(left, expected);
    assert!(world.said_with(&format!(
        "github.com/u/r: {} has unpushed commits, skipping (use --force to delete)",
        kept
    )));
    assert!(world.said_with(&format!(
        "github.com/u/r: wald/{}/feature/foo (worktree removed)",
        a
    )));
    assert!(world.said_with(&format!(
        "github.com/u/r: wald/{}/feature/foo (baum not found)",
        b
    )));
    assert!(world.said_with("Deleted 2 orphan branch(es)"));
    assert!(world.said_with("Skipped 1 branch(es)"));

    let count = world
        .run(|r, p| prune_branches(&ws, true, &human(), r, p))
        .unwrap();
    assert_eq!(count, Cleanup { removed: 1, skipped: 0 });
    assert!(!world.bares[BARE].local.contains_key(&kept));
    world.said.clear();
    let count = world
        .run(|r, p| prune_branches(&ws, false, &human(), r, p))
        .unwrap();
    assert_eq!(count, Cleanup { removed: 0, skipped: 0 });
    assert_eq!(world.said, vec!["No orphan branches found"]);
}

// --------------------------------------------------------------- commands

#[test]
fn plant_uses_the_default_branch_where_none_is_named() {
    let (mut world, ws) = workspace();
    do_plant(&mut world, &ws, &plant_options("u/r", "x", &[])).unwrap();
    let baum = &world.baums["/ws/x"];
    assert_eq!(baum.worktrees.len(), 1);
    assert_eq!(baum.worktrees[0].branch, "main");
    assert_eq!(baum.repo_id, "github.com/u/r");
}

#[test]
fn plant_refuses_what_does_not_fit() {
    let (mut world, ws) = workspace();
    let json = Output::new(OutputFormat::Json, false);
    let err = world
        .run(|r, p| plant(&ws, &plant_options("r", "x", &[]), &json, r, p))
        .unwrap_err();
    assert_eq!(err.message, "JSON output is not supported for 'plant' command");
    assert_eq!(world.requests, 0);

    let err = do_plant(&mut world, &ws, &plant_options("", "x", &[])).unwrap_err();
    assert_eq!(err.message, "repository reference required when creating a new baum");
    let err = do_plant(&mut world, &ws, &plant_options("nope", "x", &[])).unwrap_err();
    assert_eq!(err.message, "repository not found in manifest: nope");
    world.files.insert("/ws/file".to_string(), String::new());
    let err = do_plant(&mut world, &ws, &plant_options("r", "file", &[])).unwrap_err();
    assert_eq!(err.message, "container path exists but is not a directory: /ws/file");

    do_plant(&mut world, &ws, &plant_options("r", "x", &["main"])).unwrap();
    let err = do_plant(&mut world, &ws, &plant_options("r", "x", &["dev", "main"])).unwrap_err();
    assert_eq!(err.kind, ErrorKind::Precondition);
    assert_eq!(err.message, "worktree for branch 'main' already exists in baum at /ws/x");
    assert_eq!(world.baums["/ws/x"].worktrees.len(), 1);

    let mut other = ws.manifest.clone();
    other
        .repos
        .insert("github.com/u/other".to_string(), RepoEntry::default());
    let ws2 = Workspace { root: "/ws".to_string(), manifest: other, config: ws.config, state: SyncState::default() };
    let err = do_plant(&mut world, &ws2, &plant_options("other", "x", &["dev"])).unwrap_err();
    assert_eq!(
        err.message,
        "baum at /ws/x is linked to github.com/u/r, not github.com/u/other"
    );
}

#[test]
fn plant_needs_the_bare_clone() {
    let (mut world, ws) = workspace();
    world.remove_tree(BARE);
    let err = do_plant(&mut world, &ws, &plant_options("r", "x", &["main"])).unwrap_err();
    assert_eq!(err.kind, ErrorKind::Filesystem);
    assert_eq!(
        err.message,
        format!(
            "bare repo not found: {}\nRun `wald repo add --clone github.com/u/r` first",
            BARE
        )
    );
}

#[test]
fn plant_warns_about_a_partial_clone() {
    let (mut world, ws) = workspace();
    world.bares.get_mut(BARE).unwrap().promisor = true;
    do_plant(&mut world, &ws, &plant_options("r", "x", &["main"])).unwrap();
    assert!(world.said_with("Repository is a partial clone."));
    assert!(world.said_with("wald repo fetch --full"));
}

#[test]
fn plant_keeps_the_descriptor_when_a_worktree_fails() {
    let (mut world, ws) = workspace();
    do_plant(&mut world, &ws, &plant_options("r", "x", &["main"])).unwrap();
    // the directory of the second worktree is in the way
    world.mkdirs("/ws/x/_dev.wt");
    let err = do_plant(&mut world, &ws, &plant_options("r", "x", &["feature/foo", "dev"]))
        .unwrap_err();
    assert_eq!(err.kind, ErrorKind::Git);
    assert!(err.message.starts_with("failed to add worktree for branch wald/"));
    assert_eq!(world.baums["/ws/x"].worktrees.len(), 1);
}

#[test]
fn branch_refuses_what_does_not_fit() {
    let (mut world, ws) = workspace();
    let opts = BranchOptions {
        baum_path: "x".to_string(),
        branch: "main".to_string(),
        force: false,
        reuse: false,
    };
    let err = world.run(|r, p| branch(&ws, &opts, &human(), r, p)).unwrap_err();
    assert_eq!(err.message, "not a baum: /ws/x (.baum directory not found)");
    do_plant(&mut world, &ws, &plant_options("r", "x", &["main"])).unwrap();
    let err = world.run(|r, p| branch(&ws, &opts, &human(), r, p)).unwrap_err();
    assert_eq!(err.message, "worktree for branch 'main' already exists in baum");
    assert_eq!(opts.branch_mode(), BranchMode::Default);
    let forced = BranchOptions { force: true, reuse: true, ..opts };
    assert_eq!(forced.branch_mode(), BranchMode::Force);
    let reused = BranchOptions { force: false, ..forced };
    assert_eq!(reused.branch_mode(), BranchMode::Reuse);
    let mut p = plant_options("r", "x", &[]);
    assert_eq!(p.branch_mode(), BranchMode::Default);
    p.reuse = true;
    assert_eq!(p.branch_mode(), BranchMode::Reuse);
    p.force = true;
    assert_eq!(p.branch_mode(), BranchMode::Force);
}

#[test]
fn legacy_baum_gets_an_id_that_is_not_taken() {
    let (mut world, ws) = workspace();
    let mut taken = BaumManifest::new("github.com/u/r");
    taken.id = Some("abc001".to_string());
    world.plant_baum("/ws/other", taken);
    let mut legacy = BaumManifest::new("github.com/u/r");
    legacy.add_worktree("main", "_main.wt");
    world.plant_baum("/ws/old", legacy);
    let opts = BranchOptions {
        baum_path: "old".to_string(),
        branch: "dev".to_string(),
        force: false,
        reuse: false,
    };
    world.run(|r, p| branch(&ws, &opts, &human(), r, p)).unwrap();
    let baum = &world.baums["/ws/old"];
    assert_eq!(baum.id.as_deref(), Some("abc002"));
    assert_eq!(baum.worktrees[0].local_branch, None);
    assert_eq!(
        baum.worktrees[1].local_branch.as_deref(),
        Some("wald/abc002/dev")
    );
}

#[test]
fn fresh_id_from_the_driver_is_checked() {
    let (_, ws) = workspace();
    let opts = BranchOptions {
        baum_path: "/ws/old".to_string(),
        branch: "dev".to_string(),
        force: false,
        reuse: false,
    };
    let legacy = BaumManifest::new("github.com/u/r");
    let mut other = BaumManifest::new("github.com/u/r");
    other.id = Some("abc001".to_string());
    for (id, accepted) in [("abc001", false), ("ABC002", false), ("abc02", false), ("abc002", true)] {
        let replies = vec![
            Reply::Path("/ws".to_string()),
            Reply::Path("/ws/old".to_string()),
            Reply::Kind(PathKind::Dir),
            Reply::Text(Some(format!("{}\n.wald/repos/\n.wald/state.yaml\n**/.baum/manifest.local.yaml\n**/_*.wt/\n{}\n", START, END))),
            Reply::Baum(legacy.clone()),
            Reply::Kind(PathKind::Dir),
            Reply::Done,
            Reply::Names(vec!["/ws/other".to_string()]),
            Reply::Baum(other.clone()),
            Reply::Name(Some(id.to_string())),
        ];
        let mut pos = 0;
        match branch(&ws, &opts, &human(), &replies, &mut pos) {
            Progress::Ask(Request::Git(_)) => assert!(accepted, "{}", id),
            Progress::Failed(f) => {
                assert!(!accepted, "{}", id);
                assert_eq!(f.kind, ErrorKind::Driver);
            }
            _ => panic!("unexpected step"),
        }
    }
}

#[test]
fn prune_warns_about_branches_without_worktree() {
    let (mut world, ws) = workspace();
    do_plant(&mut world, &ws, &plant_options("r", "x", &["main"])).unwrap();
    world.said.clear();
    let opts = PruneOptions {
        baum_path: "x".to_string(),
        branches: vec!["nope".to_string()],
        force: false,
    };
    world.run(|r, p| prune(&ws, &opts, &human(), r, p)).unwrap();
    assert_eq!(
        world.said,
        vec![
            format!("{:>12} {}", "Warning", "No worktree found for branch: nope"),
            "No worktrees removed".to_string(),
        ]
    );
    assert_eq!(world.baums["/ws/x"].worktrees.len(), 1);
    let opts = PruneOptions { branches: vec!["main".to_string()], ..opts };
    world.run(|r, p| prune(&ws, &opts, &human(), r, p)).unwrap();
    assert!(world.said_with("Removed 1 worktree(s)"));
    assert_eq!(world.kind("/ws/x/_main.wt"), PathKind::Missing);
    assert!(world.bares[BARE].worktrees.is_empty());
}

#[test]
fn orphans_are_tracking_branches_that_no_baum_uses() {
    let mut baum = BaumManifest::new("github.com/u/r");
    baum.id = Some("abc123".to_string());
    baum.add_worktree_with_local("feature/foo", "_feature--foo.wt", "wald/abc123/feature/foo");
    let found = vec![FoundBaum { path: "/ws/x".to_string(), baum }];
    assert_eq!(find_orphan(&found, "wald/abc123/feature/foo"), None);
    assert_eq!(
        find_orphan(&found, "wald/abc123/feature"),
        Some(("abc123".to_string(), "feature".to_string()))
    );
    assert_eq!(
        find_orphan(&found, "wald/def456/feature/foo"),
        Some(("def456".to_string(), "feature/foo".to_string()))
    );
    assert_eq!(find_orphan(&found, "main"), None);
    assert_eq!(find_orphan(&found, "wald/xyz/feature"), None);
    assert_eq!(find_orphan(&found, "+ wald/def456/main"), None);
}

#[test]
fn uproot_removes_worktrees_and_container() {
    let (mut world, ws) = workspace();
    do_plant(&mut world, &ws, &plant_options("r", "x", &["main", "feature/foo"])).unwrap();
    world.said.clear();
    let opts = UprootOptions { path: "x".to_string(), force: false };
    world.run(|r, p| uproot(&ws, &opts, &human(), r, p)).unwrap();
    assert_eq!(world.kind("/ws/x"), PathKind::Missing);
    assert!(world.bares[BARE].worktrees.is_empty());
    assert!(world.baums.is_empty());
    assert!(world.said_with("Uprooted github.com/u/r (2 worktree(s) removed)"));
    let err = world.run(|r, p| uproot(&ws, &opts, &human(), r, p)).unwrap_err();
    assert_eq!(err.message, "not a baum: /ws/x (.baum directory not found)");
}

#[test]
fn uproot_goes_on_past_failures_only_when_forced() {
    let (mut world, ws) = workspace();
    do_plant(&mut world, &ws, &plant_options("r", "x", &["main"])).unwrap();
    // git does not know the worktree any more
    world.bares.get_mut(BARE).unwrap().worktrees.clear();
    let opts = UprootOptions { path: "x".to_string(), force: false };
    let err = world.run(|r, p| uproot(&ws, &opts, &human(), r, p)).unwrap_err();
    assert_eq!(err.kind, ErrorKind::Git);
    assert_eq!(
        err.message,
        "failed to remove worktree at /ws/x/_main.wt: fatal: '/ws/x/_main.wt' is not a working tree"
    );
    assert_eq!(world.kind("/ws/x"), PathKind::Dir);
    let opts = UprootOptions { path: "x".to_string(), force: true };
    world.run(|r, p| uproot(&ws, &opts, &human(), r, p)).unwrap();
    assert!(world.said_with("Failed to remove worktree main: failed to remove worktree at"));
    assert_eq!(world.kind("/ws/x"), PathKind::Missing);
}

#[test]
fn move_takes_worktrees_descriptor_and_ignore_file_along() {
    let (mut world, ws) = workspace();
    do_plant(&mut world, &ws, &plant_options("r", "tools/x", &["main"])).unwrap();
    let before = world.baums["/ws/tools/x"].clone();
    world.git_log.clear();
    let opts = MoveOptions { old_path: "tools/x".to_string(), new_path: "admin/deep/x".to_string() };
    world.run(|r, p| move_baum(&ws, &opts, &human(), r, p)).unwrap();
    assert_eq!(world.kind("/ws/tools/x"), PathKind::Missing);
    assert_eq!(world.kind("/ws/tools"), PathKind::Dir);
    assert_eq!(world.kind("/ws/admin/deep/x/_main.wt"), PathKind::Dir);
    assert_eq!(world.files["/ws/admin/deep/x/.gitignore"], "/_main.wt\n");
    let after = &world.baums["/ws/admin/deep/x"];
    assert_eq!(after.id, before.id);
    assert_eq!(after.worktrees.len(), 1);
    assert_eq!(after.worktrees[0].local_branch, before.worktrees[0].local_branch);
    assert_eq!(world.bares[BARE].worktrees[0].0, "/ws/admin/deep/x/_main.wt");
    let commands: Vec<String> = world.git_log.iter().map(|a| a[2..].join(" ")).collect();
    assert_eq!(
        commands,
        vec![
            "worktree move /ws/tools/x/_main.wt /ws/admin/deep/x/_main.wt",
            "add /ws/admin/deep/x/.baum",
            "add /ws/admin/deep/x/.gitignore",
            "rm -r --cached --ignore-unmatch /ws/tools/x/.baum",
            "rm --cached --ignore-unmatch /ws/tools/x/.gitignore",
        ]
    );
    assert!(world.said_with("Moved github.com/u/r (1 worktree(s))"));
}

#[test]
fn move_refuses_what_does_not_fit() {
    let (mut world, ws) = workspace();
    do_plant(&mut world, &ws, &plant_options("r", "x", &["main"])).unwrap();
    world.mkdirs("/ws/plain");
    let go = |world: &mut World, from: &str, to: &str| {
        let opts = MoveOptions { old_path: from.to_string(), new_path: to.to_string() };
        world.run(|r, p| move_baum(&ws, &opts, &human(), r, p)).unwrap_err()
    };
    assert_eq!(go(&mut world, "nowhere", "y").message, "source path not found: /ws/nowhere");
    assert_eq!(
        go(&mut world, "plain", "y").message,
        "source is not a baum: /ws/plain (.baum directory not found)"
    );
    assert_eq!(go(&mut world, "x", "plain").message, "destination already exists: /ws/plain");
    assert!(go(&mut world, "x", "../out").message.contains("escapes workspace root"));
    assert_eq!(world.kind("/ws/x/_main.wt"), PathKind::Dir);
}

#[test]
fn replay_decision_table() {
    // old exists, new exists, old is a baum, new is a baum
    assert_eq!(decide_replay(false, true, false, true), ReplayAction::Nothing);
    assert_eq!(decide_replay(true, false, true, false), ReplayAction::MoveBaum);
    assert_eq!(decide_replay(true, true, false, true), ReplayAction::MoveWorktrees);
    assert_eq!(decide_replay(true, true, true, true), ReplayAction::ConflictBaums);
    assert_eq!(decide_replay(true, false, false, false), ReplayAction::NotABaum);
    assert_eq!(decide_replay(true, true, false, false), ReplayAction::ConflictExists);
    assert_eq!(decide_replay(true, true, true, false), ReplayAction::ConflictExists);
    assert_eq!(decide_replay(false, false, false, false), ReplayAction::Nothing);
}

#[test]
fn replay_moves_a_whole_baum() {
    let (mut world, ws) = workspace();
    do_plant(&mut world, &ws, &plant_options("r", "tools/x", &["main"])).unwrap();
    world.run(|r, p| replay_move(&ws, "tools/x", "admin/x", &human(), r, p)).unwrap();
    assert_eq!(world.kind("/ws/tools/x"), PathKind::Dir);
    assert!(world.files.contains_key("/ws/tools/x/.gitignore"));
    assert!(world.baums.contains_key("/ws/admin/x"));
    assert_eq!(world.bares[BARE].worktrees[0].0, "/ws/admin/x/_main.wt");
    // replaying again finds nothing to do but to warn
    world.said.clear();
    world.run(|r, p| replay_move(&ws, "tools/x", "admin/x", &human(), r, p)).unwrap();
    assert_eq!(world.bares[BARE].worktrees[0].0, "/ws/admin/x/_main.wt");
}

#[test]
fn replay_warns_about_conflicts() {
    let (mut world, ws) = workspace();
    do_plant(&mut world, &ws, &plant_options("r", "a", &["main"])).unwrap();
    do_plant(&mut world, &ws, &plant_options("r", "b", &["feature/foo"])).unwrap();
    world.mkdirs("/ws/plain");
    world.mkdirs("/ws/other");
    world.said.clear();
    world.run(|r, p| replay_move(&ws, "a", "b", &human(), r, p)).unwrap();
    world.run(|r, p| replay_move(&ws, "a", "plain", &human(), r, p)).unwrap();
    world.run(|r, p| replay_move(&ws, "plain", "nowhere", &human(), r, p)).unwrap();
    world.run(|r, p| replay_move(&ws, "gone", "a", &human(), r, p)).unwrap();
    assert_eq!(
        world.said,
        vec![
            format!("{:>12} {}", "Warning", "Move conflict: both a and b are baums"),
            format!("{:>12} {}", "Warning", "Move conflict: both a and plain exist"),
            format!("{:>12} {}", "Warning", "Not a baum, skipping: plain"),
        ]
    );
    assert_eq!(world.bares[BARE].worktrees.len(), 2);
}

#[test]
fn sync_refuses_a_dirty_workspace() {
    let (mut world, ws) = workspace();
    world.outer_dirty = " M file\n".to_string();
    let opts = SyncOptions { dry_run: false, force: false, push: false };
    let err = world.run(|r, p| sync(&ws, &opts, &human(), r, p)).unwrap_err();
    assert_eq!(err.kind, ErrorKind::Precondition);
    assert_eq!(
        err.message,
        "uncommitted changes in workspace\nCommit or stash changes before syncing"
    );
    assert_eq!(world.git_log.len(), 1);
}

#[test]
fn sync_that_brings_nothing_records_the_head() {
    let (mut world, ws) = workspace();
    let opts = SyncOptions { dry_run: false, force: false, push: true };
    let state = world.run(|r, p| sync(&ws, &opts, &human(), r, p)).unwrap();
    assert_eq!(state.last_sync.as_deref(), Some("1111111111111111111111111111111111111111"));
    assert_eq!(world.pushed, 1);
    assert_eq!(
        world.said,
        vec![
            format!("{:>12} {}", "Syncing", "pulling changes from remote"),
            "Already up to date".to_string(),
            format!("{:>12} {}", "Pushing", "sending changes to remote"),
        ]
    );
}

#[test]
fn dry_run_changes_nothing() {
    let (mut world, ws) = workspace();
    do_plant(&mut world, &ws, &plant_options("r", "tools/x", &["main"])).unwrap();
    world.incoming = Some(Incoming {
        new_head: "2222".to_string(),
        moves: vec![("tools/x".to_string(), "admin/x".to_string())],
        diverged: false,
    });
    let opts = SyncOptions { dry_run: true, force: false, push: true };
    let state = world.run(|r, p| sync(&ws, &opts, &human(), r, p)).unwrap();
    assert!(state.last_sync.is_none());
    assert!(world.states.is_empty() || world.states["/ws/.wald/state.yaml"].last_sync.is_none());
    assert!(world.incoming.is_some());
    assert_eq!(world.pushed, 0);
    assert!(world.said_with("Would push changes to remote"));
    assert!(world.baums.contains_key("/ws/tools/x"));
}

#[test]
fn divergence_is_named_unless_forced() {
    let (mut world, ws) = workspace();
    world.incoming = Some(Incoming { new_head: "2".to_string(), moves: vec![], diverged: true });
    let opts = SyncOptions { dry_run: false, force: false, push: false };
    let err = world.run(|r, p| sync(&ws, &opts, &human(), r, p)).unwrap_err();
    assert_eq!(
        err.message,
        "workspace has diverged from remote\nUse --force to force sync"
    );
    let opts = SyncOptions { dry_run: false, force: true, push: false };
    let err = world.run(|r, p| sync(&ws, &opts, &human(), r, p)).unwrap_err();
    assert_eq!(
        err.message,
        "git pull failed: fatal: Your branch and 'origin/main' have diverged\n"
    );
    assert!(world.states.get("/ws/.wald/state.yaml").map(|s| s.last_sync.is_none()).unwrap_or(true));
}

#[test]
fn sync_starts_the_rename_detection_at_the_last_sync() {
    let (mut world, mut ws) = workspace();
    ws.state.update_last_sync("0000");
    world.incoming = Some(Incoming { new_head: "2222".to_string(), moves: vec![], diverged: false });
    let opts = SyncOptions { dry_run: false, force: false, push: false };
    world.run(|r, p| sync(&ws, &opts, &human(), r, p)).unwrap();
    let diff = world.git_log.iter().find(|a| a.contains(&"diff".to_string())).unwrap();
    assert_eq!(diff.last().unwrap(), "0000..2222");
}

#[test]
fn test_paths_equal_identical() {
    let mut world = World::new("/ws");
    world.files.insert("/ws/test.txt".to_string(), "test".to_string());
    assert!(world.run(|r, p| paths_equal("/ws/test.txt", "/ws/test.txt", r, p)).unwrap());
}

#[test]
fn test_paths_equal_with_symlink() {
    let mut world = World::new("/tmp/d");
    world.files.insert("/tmp/d/test.txt".to_string(), "test".to_string());
    world.mkdirs("/private/tmp/d");
    world.files.insert("/private/tmp/d/test.txt".to_string(), "test".to_string());
    world.links.push(("/tmp".to_string(), "/private/tmp".to_string()));
    assert!(world
        .run(|r, p| paths_equal("/tmp/d/test.txt", "/private/tmp/d/test.txt", r, p))
        .unwrap());
    assert!(world
        .run(|r, p| paths_equal("/private/tmp/d/test.txt", "/tmp/d/test.txt", r, p))
        .unwrap());
}

#[test]
fn test_paths_equal_nonexistent() {
    let mut world = World::new("/ws");
    assert!(world
        .run(|r, p| paths_equal("/nonexistent/path/file.txt", "/nonexistent/path/file.txt", r, p))
        .unwrap());
    assert!(!world
        .run(|r, p| paths_equal("/nonexistent/path/file.txt", "/different/path/file.txt", r, p))
        .unwrap());
}

#[test]
fn doctor_finds_nothing_in_a_healthy_workspace() {
    let (mut world, ws) = workspace();
    do_plant(&mut world, &ws, &plant_options("r", "x", &["main"])).unwrap();
    world.said.clear();
    let issues = world
        .run(|r, p| doctor(&ws, &DoctorOptions { fix: false }, &human(), r, p))
        .unwrap();
    assert!(issues.is_empty());
    assert_eq!(world.printed, vec![""]);
    assert_eq!(
        world.said,
        vec![
            format!("{:>12} {}", "Checking", "workspace structure"),
            format!("{:>12} {}", "Checking", "registered repositories"),
            format!("{:>12} {}", "Checking", "planted baums"),
            format!("{:>12} {}", "Done", "No issues found"),
        ]
    );
}

#[test]
fn doctor_finds_what_does_not_fit() {
    let (mut world, mut ws) = workspace();
    do_plant(&mut world, &ws, &plant_options("r", "x", &["main", "feature/foo", "dev"])).unwrap();
    ws.manifest
        .repos
        .insert("github.com/u/uncloned".to_string(), RepoEntry::default());
    world.plant_baum("/ws/stray", BaumManifest::new("github.com/u/unknown"));
    world.mkdirs("/ws/bad/.baum");
    world.broken.insert("/ws/bad".to_string());
    world.remove_tree("/ws/x/_main.wt");
    world.files.remove("/ws/x/_dev.wt/.git");
    world.bares.get_mut(BARE).unwrap().worktrees.retain(|(w, _)| !w.ends_with("_feature--foo.wt"));
    world.remove_tree("/ws/.wald/manifest.yaml");
    world.files.remove("/ws/.wald/manifest.yaml");

    let issues = world
        .run(|r, p| doctor(&ws, &DoctorOptions { fix: false }, &human(), r, p))
        .unwrap();
    let found: Vec<(Severity, &str)> =
        issues.iter().map(|i| (i.severity, i.message.as_str())).collect();
    assert_eq!(
        found,
        vec![
            (Severity::Error, "Missing manifest.yaml"),
            (Severity::Warning, "Bare repo not cloned: github.com/u/uncloned"),
            (Severity::Error, "Invalid baum manifest at /ws/bad: invalid YAML"),
            (
                Severity::Warning,
                "Baum /ws/stray references unregistered repo: github.com/u/unknown"
            ),
            (
                Severity::Error,
                "Baum /ws/stray missing bare repo: /ws/.wald/repos/github.com/u/unknown.git"
            ),
            (Severity::Error, "Missing worktree directory: /ws/x/_main.wt (branch: main)"),
            (Severity::Warning, "Worktree not in git's list: /ws/x/_feature--foo.wt"),
            (Severity::Error, "Invalid worktree (missing .git): /ws/x/_dev.wt"),
        ]
    );
    assert_eq!(
        issues[6].fix,
        Some(FixAction::RepairWorktree(
            BARE.to_string(),
            "/ws/x/_feature--foo.wt".to_string()
        ))
    );
    assert_eq!(world.printed[1], "Found 8 issue(s) (5 errors, 3 warnings)");
    assert_eq!(world.printed[3], "  [ERROR] Missing manifest.yaml");
    assert_eq!(world.printed[4], "  [WARN] Bare repo not cloned: github.com/u/uncloned");
    assert_eq!(
        world.printed.last().unwrap(),
        "Run with --fix to automatically repair fixable issues"
    );
    assert!(!world.git_log.iter().any(|a| a.contains(&"repair".to_string())));

    world.printed.clear();
    world
        .run(|r, p| doctor(&ws, &DoctorOptions { fix: true }, &human(), r, p))
        .unwrap();
    assert!(world.printed.contains(&"         Fixed!".to_string()));
    let repair = world.git_log.iter().find(|a| a.contains(&"repair".to_string())).unwrap();
    assert_eq!(repair, &vec!["-C", "/ws/x/_feature--foo.wt", "worktree", "repair"]);
}

#[test]
fn fixes_report_what_went_wrong() {
    let mut world = World::new("/ws");
    let fix = FixAction::CreateDir("/ws/.wald/repos".to_string());
    assert_eq!(world.run(|r, p| apply_fix(&fix, r, p)).unwrap(), None);
    assert_eq!(world.kind("/ws/.wald/repos"), PathKind::Dir);
    let replies = vec![fail("error: not a worktree\n")];
    let fix = FixAction::RepairWorktree("/b".to_string(), "/w".to_string());
    let mut pos = 0;
    match apply_fix(&fix, &replies, &mut pos) {
        Progress::Done(cause) => assert_eq!(
            cause.as_deref(),
            Some("git worktree repair failed: error: not a worktree")
        ),
        _ => panic!("expected an answer"),
    }
    let issues = world
        .run(|r, p| check_baum(&workspace().1, "/ws/nothing", vec![], r, p))
        .unwrap();
    assert_eq!(issues.len(), 1);
    assert_eq!(issues[0].message, "Invalid baum manifest at /ws/nothing: no such file");
}

#[test]
fn repo_add_registers_and_clones() {
    let (mut world, mut ws) = fresh_workspace();
    let opts = RepoAddOptions {
        repo_id: " github.com / user / repo ".to_string(),
        lfs: Some(LfsPolicy::Full),
        depth: None,
        filter: Some(FilterPolicy::TreeZero),
        upstream: Some("github.com/up/repo".to_string()),
        aliases: vec!["rp".to_string()],
        clone: true,
    };
    ws.manifest = world.run(|r, p| repo_add(&ws, &opts, &human(), r, p)).unwrap();
    let entry = ws.manifest.repos.get("github.com/user/repo").unwrap();
    assert_eq!(entry.lfs, LfsPolicy::Full);
    assert_eq!(entry.depth, DepthPolicy::Depth(100));
    assert_eq!(entry.filter, FilterPolicy::TreeZero);
    assert_eq!(entry.upstream.as_deref(), Some("github.com/up/repo"));
    assert_eq!(entry.aliases, vec!["rp"]);
    assert_eq!(
        world.git_log[0],
        vec![
            "clone",
            "--bare",
            "--quiet",
            "--depth=100",
            "--filter=tree:0",
            "git@github.com:user/repo.git",
            "/ws/.wald/repos/github.com/user/repo.git"
        ]
    );
    assert!(world.manifests["/ws/.wald/manifest.yaml"].has_repo("github.com/user/repo"));

    let err = world.run(|r, p| repo_add(&ws, &opts, &human(), r, p)).unwrap_err();
    assert_eq!(err.message, "repository already registered: github.com/user/repo");
    let clash = RepoAddOptions {
        repo_id: "github.com/other/thing".to_string(),
        aliases: vec!["new".to_string(), "repo".to_string()],
        clone: false,
        ..opts
    };
    let err = world.run(|r, p| repo_add(&ws, &clash, &human(), r, p)).unwrap_err();
    assert_eq!(
        err.message,
        "alias 'repo' already in use by repository: github.com/user/repo"
    );
    let bad = RepoAddOptions { repo_id: "github.com".to_string(), aliases: vec![], ..clash };
    let err = world.run(|r, p| repo_add(&ws, &bad, &human(), r, p)).unwrap_err();
    assert_eq!(err.kind, ErrorKind::UserInput);
    assert_eq!(
        err.message,
        "repo ID requires at least host and one path segment: 'github.com'"
    );
    let quiet = RepoAddOptions { repo_id: "github.com/a/b".to_string(), ..bad };
    let clones = world.git_log.len();
    ws.manifest = world.run(|r, p| repo_add(&ws, &quiet, &human(), r, p)).unwrap();
    assert_eq!(world.git_log.len(), clones);
    assert_eq!(ws.manifest.repos.len(), 2);
    assert_eq!(ws.manifest.repos.key_at(1), "github.com/a/b");
}

#[test]
fn repo_remove_resolves_the_reference() {
    let (mut world, mut ws) = workspace();
    let err = world.run(|r, p| repo_remove(&ws, "nope", &human(), r, p)).unwrap_err();
    assert_eq!(err.message, "repository not found: nope");
    ws.manifest = world.run(|r, p| repo_remove(&ws, "u/r", &human(), r, p)).unwrap();
    assert!(ws.manifest.repos.is_empty());
    assert!(world.manifests["/ws/.wald/manifest.yaml"].repos.is_empty());
    assert_eq!(world.kind(BARE), PathKind::Dir);
    assert!(world.said_with("Removed repository: github.com/u/r"));
}

#[test]
fn repo_fetch_full_turns_partial_clones_into_full_ones() {
    let (mut world, mut ws) = workspace();
    ws.manifest.repos.set_filter("github.com/u/r", FilterPolicy::BlobNone);
    ws.manifest
        .repos
        .insert("github.com/u/uncloned".to_string(), RepoEntry::default());
    world.bares.get_mut(BARE).unwrap().promisor = true;
    let opts = RepoFetchOptions { repo_ref: None, full: true };
    let after = world.run(|r, p| repo_fetch(&ws, &opts, &human(), r, p)).unwrap();
    assert_eq!(
        after.repos.get("github.com/u/r").unwrap().filter,
        FilterPolicy::NoFilter
    );
    assert_eq!(
        world.manifests["/ws/.wald/manifest.yaml"].repos.get("github.com/u/r").unwrap().filter,
        FilterPolicy::NoFilter
    );
    let commands: Vec<String> = world.git_log.iter().map(|a| a[2..].join(" ")).collect();
    assert_eq!(
        commands,
        vec![
            "config --get remote.origin.promisor",
            "config --unset remote.origin.promisor",
            "config --unset remote.origin.partialclonefilter",
            "fetch --all --prune --refetch",
        ]
    );
    assert!(world.said_with("Converting to full clone"));
    world.git_log.clear();
    world.said.clear();
    let opts = RepoFetchOptions { repo_ref: Some("r".to_string()), full: false };
    world.run(|r, p| repo_fetch(&ws, &opts, &human(), r, p)).unwrap();
    assert_eq!(world.git_log[0][2..].join(" "), "fetch --all --prune --quiet");
    let opts = RepoFetchOptions { repo_ref: Some("uncloned".to_string()), full: false };
    let err = world.run(|r, p| repo_fetch(&ws, &opts, &human(), r, p)).unwrap_err();
    assert_eq!(
        err.message,
        "bare repo not found: /ws/.wald/repos/github.com/u/uncloned.git"
    );
}

#[test]
fn repo_gc_and_list() {
    let (mut world, mut ws) = workspace();
    ws.manifest.repos.insert(
        "codeberg.org/z/tool".to_string(),
        RepoEntry {
            lfs: LfsPolicy::Skip,
            depth: DepthPolicy::Depth(7),
            filter: FilterPolicy::NoFilter,
            upstream: Some("codeberg.org/up/tool".to_string()),
            aliases: vec!["t".to_string(), "tool".to_string()],
        },
    );
    let opts = RepoGcOptions { repo_ref: None, aggressive: true };
    world.run(|r, p| repo_gc(&ws, &opts, &human(), r, p)).unwrap();
    assert_eq!(world.git_log.len(), 1);
    assert_eq!(world.git_log[0], vec!["-C", BARE, "gc", "--aggressive"]);
    assert!(world.said_with("Garbage collection complete"));
    world.run(|r, p| repo_list(&ws, &human(), r, p)).unwrap();
    assert_eq!(
        world.printed,
        vec![
            "  codeberg.org/z/tool (lfs:skip, depth:7, upstream:codeberg.org/up/tool, aliases:t,tool)",
            "  github.com/u/r (lfs:minimal, depth:full, cloned)",
        ]
    );
    world.printed.clear();
    let json = Output::new(OutputFormat::Json, false);
    world.run(|r, p| repo_list(&ws, &json, r, p)).unwrap();
    assert_eq!(world.printed, vec!["registry of 2"]);
    let empty = Workspace {
        root: "/ws".to_string(),
        manifest: Manifest::default(),
        config: Config::default(),
        state: SyncState::default(),
    };
    world.said.clear();
    world.run(|r, p| repo_list(&empty, &human(), r, p)).unwrap();
    assert_eq!(world.said, vec!["No repositories registered"]);
    world.run(|r, p| repo_gc(&empty, &opts, &human(), r, p)).unwrap();
    assert!(world.said_with("No repositories to clean"));
}

#[test]
fn status_reports_the_workspace() {
    let (mut world, mut ws) = workspace();
    do_plant(&mut world, &ws, &plant_options("r", "x", &["main", "feature/foo"])).unwrap();
    do_plant(&mut world, &ws, &plant_options("r", "y", &["main"])).unwrap();
    ws.state.update_last_sync("0123456789abcdef");
    world.outer_dirty = "?? new\n".to_string();
    let report = world.run(|r, p| status(&ws, &human(), r, p)).unwrap();
    assert!(!report.clean);
    assert_eq!((report.ahead, report.behind), (2, 3));
    assert_eq!(report.repos_count, 1);
    assert_eq!(report.baums_count, 2);
    assert_eq!(report.worktrees_count, 3);
    assert_eq!(
        world.printed,
        vec![
            "Workspace: has uncommitted changes",
            "Sync: diverged (2 ahead, 3 behind)",
            "Last sync: 01234567",
            "Repos: 1 registered",
            "Baums: 2 planted (3 worktrees)",
        ]
    );
    world.printed.clear();
    let json = Output::new(OutputFormat::Json, false);
    world.run(|r, p| status(&ws, &json, r, p)).unwrap();
    assert_eq!(world.printed.len(), 1);
    assert!(world.printed[0].starts_with("status "));
}

#[test]
fn worktrees_are_listed_by_container_and_branch() {
    let (mut world, ws) = workspace();
    do_plant(&mut world, &ws, &plant_options("r", "tools/x", &["main", "feature/foo"])).unwrap();
    do_plant(&mut world, &ws, &plant_options("r", "admin/y", &["main"])).unwrap();
    let opts = WorktreesOptions { filter: None };
    let listed = world.run(|r, p| worktrees(&ws, &opts, &human(), r, p)).unwrap();
    let shown: Vec<(&str, &str)> =
        listed.iter().map(|w| (w.container.as_str(), w.branch.as_str())).collect();
    assert_eq!(
        shown,
        vec![("admin/y", "main"), ("tools/x", "feature/foo"), ("tools/x", "main")]
    );
    assert_eq!(
        world.printed,
        vec![
            "admin/y (github.com/u/r)",
            "  main -> _main.wt",
            "",
            "tools/x (github.com/u/r)",
            "  feature/foo -> _feature--foo.wt",
            "  main -> _main.wt",
        ]
    );
    let opts = WorktreesOptions { filter: Some("admin".to_string()) };
    let listed = world.run(|r, p| worktrees(&ws, &opts, &human(), r, p)).unwrap();
    assert_eq!(listed.len(), 1);
    world.mkdirs("/ws/empty");
    let opts = WorktreesOptions { filter: Some("empty".to_string()) };
    world.said.clear();
    assert!(world.run(|r, p| worktrees(&ws, &opts, &human(), r, p)).unwrap().is_empty());
    assert_eq!(world.said, vec!["No worktrees found"]);
}

#[test]
fn init_makes_a_git_repository_first() {
    let mut world = World::new("/new");
    let opts = InitOptions { path: None, force: false, no_git: true };
    let err = world.run(|r, p| init(&opts, &human(), r, p)).unwrap_err();
    assert_eq!(
        err.message,
        "/new is not a git repository. Remove --no-git to initialize one."
    );
    let opts = InitOptions { path: Some("/new".to_string()), force: false, no_git: false };
    world.run(|r, p| init(&opts, &human(), r, p)).unwrap();
    assert_eq!(world.git_log[0], vec!["-C", "/new", "init"]);
    assert_eq!(world.kind("/new/.wald/repos"), PathKind::Dir);
    assert_eq!(
        world.said,
        vec![
            "Initializing git repository at /new".to_string(),
            format!("{:>12} {}", "Done", "Initialized wald workspace at /new"),
            "".to_string(),
            "Next steps:".to_string(),
            "  1. Add repositories: wald repo add github.com/user/repo".to_string(),
            "  2. Create a baum:    wald plant <repo> <container> <branch>".to_string(),
        ]
    );
}

#[test]
fn generated_ids_fit_the_fresh_id_request() {
    // what the library generates is what the library accepts from a driver
    let mut taken = StringSet::new();
    taken.insert("abc001".to_string());
    let id = wald::id::generate_baum_id(&taken).unwrap();
    let replies = vec![Reply::Name(Some(id.clone()))];
    let mut pos = 0;
    match wald::flow::ask_fresh_id(&replies, &mut pos, &taken) {
        Progress::Done(got) => assert_eq!(got, id),
        _ => panic!("a generated ID was refused"),
    }
}

// ------------------------------------------------------ the outer repository

#[test]
fn test_get_head_commit_returns_hash() {
    let (mut world, _) = workspace();
    let commit = world.run(|r, p| get_head_commit("/ws", r, p)).unwrap();
    assert_eq!(commit.len(), 40);
    assert!(commit.chars().all(|c| c.is_ascii_hexdigit()));
}

#[test]
fn test_get_head_commit_fails_on_empty_repo() {
    let replies = vec![fail(
        "fatal: ambiguous argument 'HEAD': unknown revision or path not in the working tree.\n",
    )];
    let mut pos = 0;
    match get_head_commit("/empty", &replies, &mut pos) {
        Progress::Failed(f) => {
            assert_eq!(f.kind, ErrorKind::Git);
            assert_eq!(
                f.message,
                "failed to get HEAD commit in /empty: fatal: ambiguous argument 'HEAD': unknown revision or path not in the working tree."
            );
        }
        _ => panic!("expected a failure"),
    }
}

#[test]
fn test_worktree_prune_succeeds_on_clean_repo() {
    let (mut world, _) = workspace();
    assert!(world.run(|r, p| worktree_prune(BARE, r, p)).is_ok());
    assert_eq!(world.git_log[0], vec!["-C", BARE, "worktree", "prune"]);
}

#[test]
fn test_worktree_prune_removes_stale_entries() {
    let (mut world, _) = workspace();
    world.mkdirs("/wt");
    world.run(|r, p| add_worktree(BARE, "/wt/worktree", "main", r, p)).unwrap();
    assert_eq!(world.kind("/wt/worktree"), PathKind::Dir);
    world.dirs.remove("/wt/worktree");
    world.files.remove("/wt/worktree/.git");
    assert!(world.run(|r, p| worktree_prune(BARE, r, p)).is_ok());
}

#[test]
fn test_git_mv_fails_on_missing_source() {
    let replies = vec![fail("fatal: bad source, source=nonexistent.txt, destination=target.txt\n")];
    let mut pos = 0;
    match git_mv("/ws", "nonexistent.txt", "target.txt", &replies, &mut pos) {
        Progress::Failed(f) => assert_eq!(
            f.message,
            "git mv failed from nonexistent.txt to target.txt: fatal: bad source, source=nonexistent.txt, destination=target.txt"
        ),
        _ => panic!("expected a failure"),
    }
}

#[test]
fn test_git_mv_stages_rename() {
    let (mut world, _) = workspace();
    assert!(world.run(|r, p| git_mv("/ws", "source.txt", "target.txt", r, p)).is_ok());
    assert_eq!(
        world.git_log[0],
        vec!["-C", "/ws", "mv", "source.txt", "target.txt"]
    );
}

#[test]
fn test_clone_bare() {
    let mut world = World::new("/tmp/d");
    let repo_id = RepoId::parse("github.com/octocat/Hello-World").unwrap();
    let opts = CloneOptions { depth: Some(1), filter: None };
    world
        .run(|r, p| clone_bare(&repo_id, "/tmp/d/test.git", &opts, r, p))
        .unwrap();
    assert_eq!(world.kind("/tmp/d/test.git"), PathKind::Dir);
    assert_eq!(
        world.git_log[0],
        vec![
            "clone",
            "--bare",
            "--quiet",
            "--depth=1",
            "git@github.com:octocat/Hello-World.git",
            "/tmp/d/test.git"
        ]
    );
}

#[test]
fn worktree_move_reports_what_git_said() {
    let (mut world, _) = workspace();
    let err = world
        .run(|r, p| worktree_move(BARE, "/ws/a", "/ws/b", r, p))
        .unwrap_err();
    assert_eq!(
        err.message,
        "failed to move worktree from /ws/a to /ws/b: fatal: '/ws/a' is not a working tree"
    );
    let replies = vec![Reply::Failed("No such file or directory".to_string())];
    let mut pos = 0;
    match worktree_move(BARE, "/ws/a", "/ws/b", &replies, &mut pos) {
        Progress::Failed(f) => assert_eq!(
            f.message,
            "failed to move worktree from /ws/a to /ws/b: No such file or directory"
        ),
        _ => panic!("expected a failure"),
    }
}

#[test]
fn an_operation_asks_again_until_it_is_answered() {
    // the same replies always give the same step
    let replies: Vec<Reply> = vec![];
    for _ in 0..3 {
        let mut pos = 0;
        match get_head_commit("/ws", &replies, &mut pos) {
            Progress::Ask(Request::Git(args)) => {
                assert_eq!(args, vec!["-C", "/ws", "rev-parse", "HEAD"]);
                assert_eq!(pos, 0);
            }
            _ => panic!("expected a request"),
        }
    }
    let replies = vec![ok("  abc  \n")];
    let mut pos = 0;
    match get_head_commit("/ws", &replies, &mut pos) {
        Progress::Done(commit) => {
            assert_eq!(commit, "abc");
            assert_eq!(pos, 1);
        }
        _ => panic!("expected an answer"),
    }
}

#[test]
fn repo_add_refuses_an_alias_that_several_repositories_answer_to() {
    let (mut world, mut ws) = fresh_workspace();
    ws.manifest
        .repos
        .insert("gitlab.com/bob/repo".to_string(), RepoEntry::default());
    ws.manifest
        .repos
        .insert("github.com/alice/repo".to_string(), RepoEntry::default());
    let opts = RepoAddOptions {
        repo_id: "github.com/carol/thing".to_string(),
        lfs: None,
        depth: None,
        filter: None,
        upstream: None,
        aliases: vec!["repo".to_string()],
        clone: false,
    };
    let err = world.run(|r, p| repo_add(&ws, &opts, &human(), r, p)).unwrap_err();
    assert_eq!(err.kind, ErrorKind::Precondition);
    assert_eq!(
        err.message,
        "alias 'repo' already in use by repository: github.com/alice/repo"
    );
}
