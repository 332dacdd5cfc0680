//! Paths that the user names are kept inside the workspace.
//!
//! A user path is resolved against the workspace root, or against the
//! current directory where it starts with `.` or `..`; an absolute path is
//! taken as it is. The resolved path is then made canonical: the symbolic
//! links of its longest existing prefix are resolved, and `.` and `..` in
//! the rest are resolved on the text. It is accepted only if that canonical
//! form lies under the canonical root, and the canonical form is what is
//! handed back.

use vstd::prelude::*;
use crate::failure::{failure, ErrorKind, Failure, FailureView};
use crate::flow::{
    agrees, ask_path, ask_stat, caused, caused_failure, driver_failure, driver_fault, exchange,
    path_step, reply_at, stat_step, Outcome, PathKind, Progress, Replies, Reply, ReplyView,
    Request, RequestView,
};
use crate::paths::{
    components, components_of, is_absolute, is_name, join_path, joined, lemma_components_named,
    lemma_normalized_plain, normalize_path, normalized_path, path_starts_with, plain, render,
    render_components, resolve_components, resolve_dots, under, well_named, Component,
    ComponentView,
};
use crate::text::{append_str, from_chars, to_chars};

verus! {

/// Whether a path is meant relative to the current directory: its first
/// component is `.` or `..`.
pub open spec fn starts_at_cwd(path: Seq<char>) -> bool {
    components(path).len() > 0 && (components(path)[0] is Cur || components(path)[0] is Parent)
}

/// The error of a path that leaves the workspace.
pub open spec fn escape_failure(canonical: Seq<char>, canonical_root: Seq<char>) -> FailureView {
    failure(
        ErrorKind::UserInput,
        "path escapes workspace root: "@ + canonical + " is not under "@ + canonical_root,
    )
}

/// Accepts a canonical path that lies under the canonical root, and
/// rejects every other.
pub fn contained_path(canonical: String, canonical_root: &str) -> (r: Result<String, Failure>)
    ensures
        match r {
            Ok(p) => under(canonical@, canonical_root@) && p@ == canonical@,
            Err(f) => !under(canonical@, canonical_root@) && f@ == escape_failure(
                canonical@,
                canonical_root@,
            ),
        },
{
    if path_starts_with(canonical.as_str(), canonical_root) {
        Ok(canonical)
    } else {
        let mut m = to_chars("path escapes workspace root: ");
        append_str(&mut m, canonical.as_str());
        append_str(&mut m, " is not under ");
        append_str(&mut m, canonical_root);
        Err(Failure::new(ErrorKind::UserInput, from_chars(&m)))
    }
}

/// How many leading components of a path exist: the walk asks for the path,
/// then for the path without its last component, and so on until something
/// exists, the root is reached, or nothing is left.
pub open spec fn existing_prefix(comps: Seq<ComponentView>, replies: Replies, pos: int, k: int)
    -> Outcome<usize>
    decreases k,
{
    if k <= 0 {
        Outcome::Done(0usize, pos)
    } else {
        match stat_step(replies, pos, render(comps.take(k))) {
            Outcome::Done(kind, next) => if kind != PathKind::Missing || (k == 1
                && comps[0] is Root) {
                Outcome::Done(k as usize, next)
            } else {
                existing_prefix(comps, replies, next, k - 1)
            },
            Outcome::Ask(q) => Outcome::Ask(q),
            Outcome::Failed(f) => Outcome::Failed(f),
        }
    }
}

/// `base` followed by the components of `comps` from index `from` on, with
/// `.` and `..` resolved on the text: a `..` in the part that does not exist
/// takes away the component before it, be that a missing one or the last of
/// `base`.
pub open spec fn with_rest(base: Seq<char>, comps: Seq<ComponentView>, from: int) -> Seq<char> {
    render(resolve_dots(components(base) + comps.subrange(from, comps.len() as int)))
}

/// The canonical form of a path that need not exist: the canonical form of
/// the path where it has one, and else the canonical form of its longest
/// existing prefix followed by the remaining components. A prefix that has
/// no canonical form is taken as it is written. In every case `.` and `..`
/// are resolved on the text of what results.
pub open spec fn canonical_partial_flow(path: Seq<char>, replies: Replies, pos: int) -> Outcome<
    Seq<char>,
> {
    match path_step(replies, pos, RequestView::Canonical(path)) {
        Outcome::Done(Some(c), next) => Outcome::Done(normalized_path(c), next),
        Outcome::Done(None, next) => {
            let comps = components(path);
            match existing_prefix(comps, replies, next, comps.len() as int) {
                Outcome::Done(k, after) => {
                    let existing = render(comps.take(k as int));
                    match path_step(replies, after, RequestView::Canonical(existing)) {
                        Outcome::Done(Some(c), end) => Outcome::Done(
                            with_rest(c, comps, k as int),
                            end,
                        ),
                        Outcome::Done(None, end) => Outcome::Done(
                            with_rest(existing, comps, k as int),
                            end,
                        ),
                        Outcome::Ask(q) => Outcome::Ask(q),
                        Outcome::Failed(f) => Outcome::Failed(f),
                    }
                },
                Outcome::Ask(q) => Outcome::Ask(q),
                Outcome::Failed(f) => Outcome::Failed(f),
            }
        },
        Outcome::Ask(q) => Outcome::Ask(q),
        Outcome::Failed(f) => Outcome::Failed(f),
    }
}

fn copy_prefix(comps: &Vec<Component>, k: usize) -> (out: Vec<Component>)
    requires
        k <= comps.len(),
    ensures
        out.deep_view() == comps.deep_view().take(k as int),
{
    let mut out: Vec<Component> = Vec::new();
    let mut i: usize = 0;
    assert(out.deep_view() == comps.deep_view().take(0));
    while i < k
        invariant
            i <= k <= comps.len(),
            out.deep_view() == comps.deep_view().take(i as int),
        decreases k - i,
    {
        let ghost before = out.deep_view();
        let c = comps[i].clone();
        out.push(c);
        assert(out.deep_view() == before.push(c@));
        assert(comps.deep_view().take(i + 1) == comps.deep_view().take(i as int).push(
            comps.deep_view()[i as int],
        ));
        i += 1;
    }
    out
}

fn find_existing_prefix(comps: &Vec<Component>, replies: &Vec<Reply>, pos: &mut usize) -> (r:
    Progress<usize>)
    ensures
        agrees(
            r,
            *final(pos),
            existing_prefix(
                comps.deep_view(),
                replies.deep_view(),
                *old(pos) as int,
                comps.len() as int,
            ),
        ),
        r matches Progress::Done(k) ==> k <= comps.len(),
{
    let mut k: usize = comps.len();
    let ghost start = *pos as int;
    let ghost all = comps.deep_view();
    let ghost rs = replies.deep_view();
    while k > 0
        invariant
            k <= comps.len(),
            start == *old(pos) as int,
            all == comps.deep_view(),
            rs == replies.deep_view(),
            existing_prefix(all, rs, start, comps.len() as int) == existing_prefix(
                all,
                rs,
                *pos as int,
                k as int,
            ),
        decreases k,
    {
        let prefix = copy_prefix(comps, k);
        let candidate = render_components(&prefix);
        match ask_stat(replies, pos, candidate.as_str()) {
            Progress::Done(kind) => {
                assert(all[0] == comps[0]@);
                let at_root = k == 1 && match &comps[0] {
                    Component::Root => true,
                    _ => false,
                };
                if kind != PathKind::Missing || at_root {
                    return Progress::Done(k);
                }
            },
            Progress::Ask(q) => {
                return Progress::Ask(q);
            },
            Progress::Failed(f) => {
                return Progress::Failed(f);
            },
        }
        k -= 1;
    }
    Progress::Done(0)
}

fn append_rest(base: &str, comps: &Vec<Component>, from: usize) -> (out: String)
    requires
        from <= comps.len(),
    ensures
        out@ == with_rest(base@, comps.deep_view(), from as int),
{
    let mut all = components_of(base);
    let ghost head = all.deep_view();
    let ghost rest = comps.deep_view();
    let mut i: usize = from;
    assert(all.deep_view() == head + rest.subrange(from as int, from as int));
    while i < comps.len()
        invariant
            from <= i <= comps.len(),
            head == components(base@),
            rest == comps.deep_view(),
            all.deep_view() == head + rest.subrange(from as int, i as int),
        decreases comps.len() - i,
    {
        let ghost before = all.deep_view();
        let c = comps[i].clone();
        all.push(c);
        assert(all.deep_view() == before.push(c@));
        assert(rest[i as int] == comps[i as int]@);
        assert(rest.subrange(from as int, i + 1) == rest.subrange(from as int, i as int).push(
            rest[i as int],
        ));
        assert(all.deep_view() == head + rest.subrange(from as int, i + 1));
        i += 1;
    }
    let resolved = resolve_components(&all);
    render_components(&resolved)
}

/// Resolves the symbolic links of a path as far as the path exists.
pub fn canonicalize_partial(path: &str, replies: &Vec<Reply>, pos: &mut usize) -> (r: Progress<
    String,
>)
    ensures
        agrees(
            r,
            *final(pos),
            canonical_partial_flow(path@, replies.deep_view(), *old(pos) as int),
        ),
{
    match ask_path(replies, pos, Request::Canonical(path.to_owned())) {
        Progress::Done(Some(c)) => {
            return Progress::Done(normalize_path(c.as_str()));
        },
        Progress::Done(None) => {},
        Progress::Ask(q) => {
            return Progress::Ask(q);
        },
        Progress::Failed(f) => {
            return Progress::Failed(f);
        },
    }
    let comps = components_of(path);
    let k = match find_existing_prefix(&comps, replies, pos) {
        Progress::Done(k) => k,
        Progress::Ask(q) => {
            return Progress::Ask(q);
        },
        Progress::Failed(f) => {
            return Progress::Failed(f);
        },
    };
    let prefix = copy_prefix(&comps, k);
    let existing = render_components(&prefix);
    let base = match ask_path(replies, pos, Request::Canonical(existing.clone())) {
        Progress::Done(Some(c)) => c,
        Progress::Done(None) => existing,
        Progress::Ask(q) => {
            return Progress::Ask(q);
        },
        Progress::Failed(f) => {
            return Progress::Failed(f);
        },
    };
    Progress::Done(append_rest(base.as_str(), &comps, k))
}

/// The current directory, which must be known.
pub open spec fn cwd_step(replies: Replies, pos: int) -> Outcome<Seq<char>> {
    match reply_at(replies, pos) {
        None => Outcome::Ask(RequestView::CurrentDir),
        Some(ReplyView::Path(p)) => Outcome::Done(p, pos + 1),
        Some(ReplyView::Failed(cause)) => Outcome::Failed(
            caused(ErrorKind::Filesystem, "failed to get current directory"@, cause),
        ),
        Some(_) => Outcome::Failed(driver_fault()),
    }
}

/// Asks for the current directory.
pub fn ask_cwd(replies: &Vec<Reply>, pos: &mut usize) -> (r: Progress<String>)
    ensures
        agrees(r, *final(pos), cwd_step(replies.deep_view(), *old(pos) as int)),
{
    match exchange(replies, pos, Request::CurrentDir) {
        Err(q) => Progress::Ask(q),
        Ok(Reply::Path(p)) => Progress::Done(p.clone()),
        Ok(Reply::Failed(cause)) => Progress::Failed(
            caused_failure(ErrorKind::Filesystem, "failed to get current directory", cause.as_str()),
        ),
        Ok(_) => Progress::Failed(driver_failure()),
    }
}

/// The path that a user path stands for, before any check.
pub open spec fn resolve_flow(root: Seq<char>, path: Seq<char>, replies: Replies, pos: int)
    -> Outcome<Seq<char>> {
    if is_absolute(path) {
        Outcome::Done(path, pos)
    } else if starts_at_cwd(path) {
        match cwd_step(replies, pos) {
            Outcome::Done(cwd, next) => Outcome::Done(normalized_path(joined(cwd, path)), next),
            Outcome::Ask(q) => Outcome::Ask(q),
            Outcome::Failed(f) => Outcome::Failed(f),
        }
    } else {
        Outcome::Done(normalized_path(joined(root, path)), pos)
    }
}

/// Validating a user path: the path is resolved, the root and the resolved
/// path are made canonical, and the canonical path is accepted and handed
/// back where it lies under the canonical root.
pub open spec fn validate_flow(root: Seq<char>, path: Seq<char>, replies: Replies, pos: int)
    -> Outcome<Seq<char>> {
    match resolve_flow(root, path, replies, pos) {
        Outcome::Done(resolved, p1) => match path_step(replies, p1, RequestView::Canonical(root)) {
            Outcome::Done(found, p2) => {
                let canonical_root = match found {
                    Some(c) => c,
                    None => normalized_path(root),
                };
                match canonical_partial_flow(resolved, replies, p2) {
                    Outcome::Done(canonical, p3) => if under(canonical, canonical_root) {
                        Outcome::Done(canonical, p3)
                    } else {
                        Outcome::Failed(escape_failure(canonical, canonical_root))
                    },
                    Outcome::Ask(q) => Outcome::Ask(q),
                    Outcome::Failed(f) => Outcome::Failed(f),
                }
            },
            Outcome::Ask(q) => Outcome::Ask(q),
            Outcome::Failed(f) => Outcome::Failed(f),
        },
        Outcome::Ask(q) => Outcome::Ask(q),
        Outcome::Failed(f) => Outcome::Failed(f),
    }
}

fn resolve_user_path(root: &str, path: &str, replies: &Vec<Reply>, pos: &mut usize) -> (r: Progress<
    String,
>)
    ensures
        agrees(r, *final(pos), resolve_flow(root@, path@, replies.deep_view(), *old(pos) as int)),
{
    let text = to_chars(path);
    if text.len() > 0 && text[0] == '/' {
        return Progress::Done(path.to_owned());
    }
    let comps = components_of(path);
    let at_cwd = comps.len() > 0 && match &comps[0] {
        Component::Cur => true,
        Component::Parent => true,
        _ => false,
    };
    assert(comps.len() > 0 ==> comps.deep_view()[0] == comps[0]@);
    if at_cwd {
        match ask_cwd(replies, pos) {
            Progress::Done(cwd) => Progress::Done(
                normalize_path(join_path(cwd.as_str(), path).as_str()),
            ),
            Progress::Ask(q) => Progress::Ask(q),
            Progress::Failed(f) => Progress::Failed(f),
        }
    } else {
        Progress::Done(normalize_path(join_path(root, path).as_str()))
    }
}

/// Validates a path that the user named and resolves it against the
/// workspace root. The result is the canonical form of the path, which lies
/// under the canonical root and holds neither `.` nor `..`, or the operation
/// fails.
pub fn validate_workspace_path(root: &str, path: &str, replies: &Vec<Reply>, pos: &mut usize) -> (r:
    Progress<String>)
    ensures
        agrees(r, *final(pos), validate_flow(root@, path@, replies.deep_view(), *old(pos) as int)),
{
    let resolved = match resolve_user_path(root, path, replies, pos) {
        Progress::Done(p) => p,
        Progress::Ask(q) => {
            return Progress::Ask(q);
        },
        Progress::Failed(f) => {
            return Progress::Failed(f);
        },
    };
    let canonical_root = match ask_path(replies, pos, Request::Canonical(root.to_owned())) {
        Progress::Done(Some(c)) => c,
        Progress::Done(None) => normalize_path(root),
        Progress::Ask(q) => {
            return Progress::Ask(q);
        },
        Progress::Failed(f) => {
            return Progress::Failed(f);
        },
    };
    let canonical = match canonicalize_partial(resolved.as_str(), replies, pos) {
        Progress::Done(c) => c,
        Progress::Ask(q) => {
            return Progress::Ask(q);
        },
        Progress::Failed(f) => {
            return Progress::Failed(f);
        },
    };
    match contained_path(canonical, canonical_root.as_str()) {
        Ok(p) => Progress::Done(p),
        Err(f) => Progress::Failed(f),
    }
}

/// The canonical root that a validation worked with: what the driver gave
/// as the canonical form of the root, or the root normalised on the text.
pub open spec fn canonical_root_in(root: Seq<char>, path: Seq<char>, replies: Replies, pos: int)
    -> Seq<char> {
    let p1 = resolve_flow(root, path, replies, pos)->Done_1;
    match path_step(replies, p1, RequestView::Canonical(root))->Done_0 {
        Some(c) => c,
        None => normalized_path(root),
    }
}

proof fn lemma_prefix_bound(comps: Seq<ComponentView>, replies: Replies, pos: int, k: int)
    requires
        0 <= k <= usize::MAX,
    ensures
        existing_prefix(comps, replies, pos, k) matches Outcome::Done(n, _) ==> n <= k,
    decreases k,
{
    if k > 0 {
        if let Outcome::Done(kind, next) = stat_step(replies, pos, render(comps.take(k))) {
            lemma_prefix_bound(comps, replies, next, k - 1);
        }
    }
}

/// Whatever the replies, the canonical form of a path is plain: it holds
/// neither `.` nor `..`.
pub proof fn lemma_canonical_is_plain(path: Seq<char>, replies: Replies, pos: int)
    ensures
        canonical_partial_flow(path, replies, pos) matches Outcome::Done(c, _) ==> plain(
            components(c),
        ),
{
    if let Outcome::Done(c, _) = canonical_partial_flow(path, replies, pos) {
        match path_step(replies, pos, RequestView::Canonical(path)) {
            Outcome::Done(Some(full), next) => {
                lemma_components_named(full);
                lemma_normalized_plain(components(full));
            },
            Outcome::Done(None, next) => {
                let comps = components(path);
                lemma_components_named(path);
                if comps.len() <= usize::MAX {
                    lemma_prefix_bound(comps, replies, next, comps.len() as int);
                }
                let k = existing_prefix(comps, replies, next, comps.len() as int)->Done_0;
                let after = existing_prefix(comps, replies, next, comps.len() as int)->Done_1;
                let existing = render(comps.take(k as int));
                let base = match path_step(replies, after, RequestView::Canonical(existing))->Done_0 {
                    Some(b) => b,
                    None => existing,
                };
                lemma_components_named(base);
                let all = components(base) + comps.subrange(k as int, comps.len() as int);
                assert(well_named(all)) by {
                    assert forall|i: int| 0 <= i < all.len() implies ((
                    #[trigger] all[i]) matches ComponentView::Normal(n) ==> is_name(n)) by {
                        if i < components(base).len() {
                            assert(all[i] == components(base)[i]);
                        } else {
                            assert(all[i] == comps[k as int + i - components(base).len()]);
                        }
                    }
                }
                lemma_normalized_plain(all);
            },
            _ => {},
        }
    }
}

/// Whatever the replies, a path that is accepted lies under the canonical
/// root, component by component, and holds neither `.` nor `..`.
pub proof fn lemma_validated_is_contained(
    root: Seq<char>,
    path: Seq<char>,
    replies: Replies,
    pos: int,
)
    ensures
        validate_flow(root, path, replies, pos) matches Outcome::Done(accepted, _) ==> {
            &&& under(accepted, canonical_root_in(root, path, replies, pos))
            &&& plain(components(accepted))
            &&& forall|i: int|
                0 <= i < components(accepted).len() ==> !(#[trigger] components(accepted)[i] is Cur)
                    && !(components(accepted)[i] is Parent)
        },
{
    if let Outcome::Done(accepted, _) = validate_flow(root, path, replies, pos) {
        let resolved = resolve_flow(root, path, replies, pos)->Done_0;
        let p1 = resolve_flow(root, path, replies, pos)->Done_1;
        let p2 = path_step(replies, p1, RequestView::Canonical(root))->Done_1;
        lemma_canonical_is_plain(resolved, replies, p2);
    }
}

/// A path whose canonical form does not lie under the canonical root is
/// rejected, and the failure names both.
pub proof fn lemma_escape_is_rejected(
    root: Seq<char>,
    path: Seq<char>,
    replies: Replies,
    pos: int,
)
    ensures
        resolve_flow(root, path, replies, pos) matches Outcome::Done(resolved, p1) ==> (path_step(
            replies,
            p1,
            RequestView::Canonical(root),
        ) matches Outcome::Done(_, p2) ==> (canonical_partial_flow(
            resolved,
            replies,
            p2,
        ) matches Outcome::Done(canonical, _) ==> (!under(
            canonical,
            canonical_root_in(root, path, replies, pos),
        ) ==> validate_flow(root, path, replies, pos) == Outcome::<Seq<char>>::Failed(
            escape_failure(canonical, canonical_root_in(root, path, replies, pos)),
        )))),
{
}

} // verus!
