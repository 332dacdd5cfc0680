//! Baums: containers that hold a descriptor and the worktrees of one
//! repository.

use vstd::prelude::*;
use crate::failure::{failure, ErrorKind, Failure};
use crate::flow::{
    agrees, ask_done, ask_stat, caused, done_step, stat_step, try_load_baum, try_load_baum_step,
    Loaded, LoadedView, Outcome, PathKind, Progress, Replies, Reply, Request, RequestView,
};
use crate::paths::{join_path, joined};
use crate::text::{cat, cat3};
use crate::types::manifest::{BaumManifest, BaumView};

verus! {

/// The name of the directory that holds the descriptor of a baum.
pub const BAUM_DIR: &'static str = ".baum";

/// Whether a directory is a baum: it has a directory `.baum`.
pub open spec fn is_baum_flow(path: Seq<char>, replies: Replies, pos: int) -> Outcome<bool> {
    match stat_step(replies, pos, joined(path, ".baum"@)) {
        Outcome::Done(kind, next) => Outcome::Done(kind == PathKind::Dir, next),
        Outcome::Ask(q) => Outcome::Ask(q),
        Outcome::Failed(f) => Outcome::Failed(f),
    }
}

/// Checks whether a directory is a baum.
pub fn is_baum(path: &str, replies: &Vec<Reply>, pos: &mut usize) -> (r: Progress<bool>)
    ensures
        agrees(r, *final(pos), is_baum_flow(path@, replies.deep_view(), *old(pos) as int)),
{
    let dir = join_path(path, ".baum");
    match ask_stat(replies, pos, dir.as_str()) {
        Progress::Done(kind) => Progress::Done(kind == PathKind::Dir),
        Progress::Ask(q) => Progress::Ask(q),
        Progress::Failed(f) => Progress::Failed(f),
    }
}

/// Reading the descriptor of the baum in a container, which must be there
/// and must be readable.
pub open spec fn load_baum_flow(container: Seq<char>, replies: Replies, pos: int) -> Outcome<
    BaumView,
> {
    match try_load_baum_step(replies, pos, container) {
        Outcome::Done(LoadedView::Value(b), next) => Outcome::Done(b, next),
        Outcome::Done(LoadedView::Broken(cause), _) => Outcome::Failed(
            caused(ErrorKind::Filesystem, "failed to load baum manifest: "@ + container, cause),
        ),
        Outcome::Ask(q) => Outcome::Ask(q),
        Outcome::Failed(f) => Outcome::Failed(f),
    }
}

/// Loads the descriptor of the baum in a container.
pub fn load_baum(container: &str, replies: &Vec<Reply>, pos: &mut usize) -> (r: Progress<
    BaumManifest,
>)
    ensures
        agrees(r, *final(pos), load_baum_flow(container@, replies.deep_view(), *old(pos) as int)),
{
    match try_load_baum(replies, pos, container) {
        Progress::Done(Loaded::Value(b)) => Progress::Done(b),
        Progress::Done(Loaded::Broken(cause)) => {
            let context = cat("failed to load baum manifest: ", container);
            Progress::Failed(
                crate::flow::caused_failure(ErrorKind::Filesystem, context.as_str(), cause.as_str()),
            )
        },
        Progress::Ask(q) => Progress::Ask(q),
        Progress::Failed(f) => Progress::Failed(f),
    }
}

/// Writing the descriptor of the baum in a container.
pub open spec fn save_baum_flow(container: Seq<char>, baum: BaumView, replies: Replies, pos: int)
    -> Outcome<()> {
    done_step(
        replies,
        pos,
        RequestView::SaveBaum(container, baum),
        ErrorKind::Filesystem,
        "failed to write baum manifest: "@ + container,
    )
}

/// Saves the descriptor of the baum in a container.
pub fn save_baum(container: &str, manifest: &BaumManifest, replies: &Vec<Reply>, pos: &mut usize) -> (r:
    Progress<()>)
    ensures
        agrees(
            r,
            *final(pos),
            save_baum_flow(container@, manifest@, replies.deep_view(), *old(pos) as int),
        ),
{
    let context = cat("failed to write baum manifest: ", container);
    ask_done(
        replies,
        pos,
        Request::SaveBaum(container.to_owned(), manifest.clone()),
        ErrorKind::Filesystem,
        context.as_str(),
    )
}

/// Creating a baum in a container. A container that is a file is refused,
/// and so is one that is a baum already. The directory of the descriptor is
/// created, and a descriptor without ID and without worktrees is written
/// and handed back.
pub open spec fn create_baum_flow(
    container: Seq<char>,
    repo_id: Seq<char>,
    replies: Replies,
    pos: int,
) -> Outcome<BaumView> {
    let fresh = BaumView { id: None, repo_id, worktrees: Seq::empty() };
    match stat_step(replies, pos, container) {
        Outcome::Done(kind, p1) => if kind == PathKind::File {
            Outcome::Failed(
                failure(
                    ErrorKind::Precondition,
                    "container path exists but is not a directory: "@ + container,
                ),
            )
        } else {
            let probed = if kind == PathKind::Dir {
                is_baum_flow(container, replies, p1)
            } else {
                Outcome::Done(false, p1)
            };
            match probed {
                Outcome::Done(planted, p2) => if planted {
                    Outcome::Failed(
                        failure(
                            ErrorKind::Precondition,
                            "baum already planted at "@ + container
                                + ": .baum directory exists"@,
                        ),
                    )
                } else {
                    match done_step(
                        replies,
                        p2,
                        RequestView::MakeDirs(joined(container, ".baum"@)),
                        ErrorKind::Filesystem,
                        "failed to create baum directory: "@ + joined(container, ".baum"@),
                    ) {
                        Outcome::Done(_, p3) => match save_baum_flow(container, fresh, replies, p3) {
                            Outcome::Done(_, p4) => Outcome::Done(fresh, p4),
                            Outcome::Ask(q) => Outcome::Ask(q),
                            Outcome::Failed(f) => Outcome::Failed(f),
                        },
                        Outcome::Ask(q) => Outcome::Ask(q),
                        Outcome::Failed(f) => Outcome::Failed(f),
                    }
                },
                Outcome::Ask(q) => Outcome::Ask(q),
                Outcome::Failed(f) => Outcome::Failed(f),
            }
        },
        Outcome::Ask(q) => Outcome::Ask(q),
        Outcome::Failed(f) => Outcome::Failed(f),
    }
}

/// Creates a baum in a container and hands back its descriptor.
pub fn create_baum(container: &str, repo_id: &str, replies: &Vec<Reply>, pos: &mut usize) -> (r:
    Progress<BaumManifest>)
    ensures
        agrees(
            r,
            *final(pos),
            create_baum_flow(container@, repo_id@, replies.deep_view(), *old(pos) as int),
        ),
{
    let kind = match ask_stat(replies, pos, container) {
        Progress::Done(k) => k,
        Progress::Ask(q) => {
            return Progress::Ask(q);
        },
        Progress::Failed(f) => {
            return Progress::Failed(f);
        },
    };
    if kind == PathKind::File {
        return Progress::Failed(
            Failure::new(
                ErrorKind::Precondition,
                cat("container path exists but is not a directory: ", container),
            ),
        );
    }
    if kind == PathKind::Dir {
        match is_baum(container, replies, pos) {
            Progress::Done(planted) => {
                if planted {
                    return Progress::Failed(
                        Failure::new(
                            ErrorKind::Precondition,
                            cat3("baum already planted at ", container, ": .baum directory exists"),
                        ),
                    );
                }
            },
            Progress::Ask(q) => {
                return Progress::Ask(q);
            },
            Progress::Failed(f) => {
                return Progress::Failed(f);
            },
        }
    }
    let dir = join_path(container, ".baum");
    let context = cat("failed to create baum directory: ", dir.as_str());
    match ask_done(replies, pos, Request::MakeDirs(dir), ErrorKind::Filesystem, context.as_str()) {
        Progress::Done(_) => {},
        Progress::Ask(q) => {
            return Progress::Ask(q);
        },
        Progress::Failed(f) => {
            return Progress::Failed(f);
        },
    }
    let manifest = BaumManifest::new(repo_id);
    match save_baum(container, &manifest, replies, pos) {
        Progress::Done(_) => Progress::Done(manifest),
        Progress::Ask(q) => Progress::Ask(q),
        Progress::Failed(f) => Progress::Failed(f),
    }
}

} // verus!
