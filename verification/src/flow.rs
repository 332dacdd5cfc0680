//! Operations that need the outside world, written without touching it.
//!
//! An operation of this crate never runs `git` and never opens a file. It
//! is a function of its arguments and of the replies that the outside world
//! has given so far: it either asks for one more thing to be done, or it is
//! done. A driver performs what is asked, appends the reply, and calls the
//! operation again with the longer list:
//!
//! ```text
//! replies = []
//! loop:
//!     match operation(arguments, replies):
//!         Ask(request) => replies.push(perform(request))
//!         Done(value)  => return value
//!         Failed(err)  => return err
//! ```
//!
//! The same arguments and the same replies always give the same step, so an
//! operation can be specified as a function on values, and is.

use vstd::prelude::*;
use crate::commands::status::{StatusReport, StatusReportView};
use crate::commands::worktrees::{WorktreeDisplay, WorktreeDisplayView};
use crate::failure::{failure, ErrorKind, Failure, FailureView};
use crate::git::shell::{GitOutput, GitOutputView};
use crate::id::{is_baum_id, is_valid_baum_id};
use crate::string_set::StringSet;
use crate::text::{append_str, from_chars, to_chars};
use crate::types::config::Config;
use crate::types::manifest::{BaumManifest, BaumView, Manifest, Registry};
use crate::types::state::SyncState;

verus! {

/// What stands at a path.
#[derive(Debug, Clone, Copy, PartialEq, Eq, Structural)]
pub enum PathKind {
    Missing,
    File,
    Dir,
}

impl View for PathKind {
    type V = PathKind;

    open spec fn view(&self) -> PathKind {
        *self
    }
}

impl DeepView for PathKind {
    type V = PathKind;

    open spec fn deep_view(&self) -> PathKind {
        *self
    }
}

/// Where a line of output goes.
#[derive(Debug, Clone, Copy, PartialEq, Eq, Structural)]
pub enum Stream {
    Stdout,
    Stderr,
}

/// A baum that a walk of the workspace found.
#[derive(Debug)]
pub struct FoundBaum {
    /// The container.
    pub path: String,
    /// Its descriptor.
    pub baum: BaumManifest,
}

/// The value of a `FoundBaum`.
pub struct FoundBaumView {
    pub path: Seq<char>,
    pub baum: BaumView,
}

impl View for FoundBaum {
    type V = FoundBaumView;

    open spec fn view(&self) -> FoundBaumView {
        FoundBaumView { path: self.path@, baum: self.baum@ }
    }
}

impl DeepView for FoundBaum {
    type V = FoundBaumView;

    open spec fn deep_view(&self) -> FoundBaumView {
        self@
    }
}

/// What an operation asks its driver to do.
#[derive(Debug)]
pub enum Request {
    /// Run `git` with these arguments and report how it ended.
    Git(Vec<String>),
    /// Say what stands at the path.
    Stat(String),
    /// Read the file as text; a file that is not there reads as nothing.
    ReadText(String),
    /// Write the text to the file, replacing what it held.
    WriteText(String, String),
    /// Create the directory and the directories above it.
    MakeDirs(String),
    /// Remove the directory with all that is in it.
    RemoveTree(String),
    /// Remove the directory, which is empty.
    RemoveDir(String),
    /// Remove the file.
    RemoveFile(String),
    /// Move the first path to the second.
    Rename(String, String),
    /// Copy the first file to the second.
    CopyFile(String, String),
    /// Say whether the directory has no entries.
    IsEmpty(String),
    /// Resolve every symbolic link of the path, which must exist.
    Canonical(String),
    /// Say what the current working directory is.
    CurrentDir,
    /// Read the descriptor of the baum in the container.
    LoadBaum(String),
    /// Write the descriptor of the baum in the container.
    SaveBaum(String, BaumManifest),
    /// Read the registry from the file.
    LoadManifest(String),
    /// Write the registry to the file.
    SaveManifest(String, Manifest),
    /// Read the configuration from the file.
    LoadConfig(String),
    /// Write the configuration to the file.
    SaveConfig(String, Config),
    /// Read the sync state from the file, which need not exist.
    LoadState(String),
    /// Write the sync state to the file.
    SaveState(String, SyncState),
    /// Walk the workspace below the path and report the directories that
    /// hold a directory `.baum`, in the order of the walk.
    FindContainers(String),
    /// Say what the symbolic reference `HEAD` of the bare repository
    /// points at, if it is symbolic.
    HeadTarget(String),
    /// Say whether the bare repository has the branch of that name: a
    /// local branch, or a remote-tracking branch where the flag is set.
    FindBranch(String, String, bool),
    /// List the branches of the bare repository: the local ones, or the
    /// remote-tracking ones where the flag is set.
    Branches(String, bool),
    /// Generate a baum ID that is none of the given ones.
    FreshId(Vec<String>),
    /// Print the registry as JSON, its repositories sorted by ID.
    PrintRegistry(Manifest),
    /// Print the status of the workspace as JSON.
    PrintStatus(StatusReport),
    /// Print the worktrees of the workspace as JSON, in the given order.
    PrintWorktrees(Vec<WorktreeDisplay>),
    /// Print the line.
    Say(Stream, String),
}

/// The value of a `Request`.
pub enum RequestView {
    Git(Seq<Seq<char>>),
    Stat(Seq<char>),
    ReadText(Seq<char>),
    WriteText(Seq<char>, Seq<char>),
    MakeDirs(Seq<char>),
    RemoveTree(Seq<char>),
    RemoveDir(Seq<char>),
    RemoveFile(Seq<char>),
    Rename(Seq<char>, Seq<char>),
    CopyFile(Seq<char>, Seq<char>),
    IsEmpty(Seq<char>),
    Canonical(Seq<char>),
    CurrentDir,
    LoadBaum(Seq<char>),
    SaveBaum(Seq<char>, BaumView),
    LoadManifest(Seq<char>),
    SaveManifest(Seq<char>, Registry),
    LoadConfig(Seq<char>),
    SaveConfig(Seq<char>, Config),
    LoadState(Seq<char>),
    SaveState(Seq<char>, Option<Seq<char>>),
    FindContainers(Seq<char>),
    HeadTarget(Seq<char>),
    FindBranch(Seq<char>, Seq<char>, bool),
    Branches(Seq<char>, bool),
    FreshId(Seq<Seq<char>>),
    PrintRegistry(Registry),
    PrintStatus(StatusReportView),
    PrintWorktrees(Seq<WorktreeDisplayView>),
    Say(Stream, Seq<char>),
}

impl View for Request {
    type V = RequestView;

    open spec fn view(&self) -> RequestView {
        match self {
            Request::Git(args) => RequestView::Git(args.deep_view()),
            Request::Stat(p) => RequestView::Stat(p@),
            Request::ReadText(p) => RequestView::ReadText(p@),
            Request::WriteText(p, t) => RequestView::WriteText(p@, t@),
            Request::MakeDirs(p) => RequestView::MakeDirs(p@),
            Request::RemoveTree(p) => RequestView::RemoveTree(p@),
            Request::RemoveDir(p) => RequestView::RemoveDir(p@),
            Request::RemoveFile(p) => RequestView::RemoveFile(p@),
            Request::Rename(a, b) => RequestView::Rename(a@, b@),
            Request::CopyFile(a, b) => RequestView::CopyFile(a@, b@),
            Request::IsEmpty(p) => RequestView::IsEmpty(p@),
            Request::Canonical(p) => RequestView::Canonical(p@),
            Request::CurrentDir => RequestView::CurrentDir,
            Request::LoadBaum(p) => RequestView::LoadBaum(p@),
            Request::SaveBaum(p, b) => RequestView::SaveBaum(p@, b@),
            Request::LoadManifest(p) => RequestView::LoadManifest(p@),
            Request::SaveManifest(p, m) => RequestView::SaveManifest(p@, m@),
            Request::LoadConfig(p) => RequestView::LoadConfig(p@),
            Request::SaveConfig(p, c) => RequestView::SaveConfig(p@, *c),
            Request::LoadState(p) => RequestView::LoadState(p@),
            Request::SaveState(p, s) => RequestView::SaveState(p@, s@),
            Request::FindContainers(p) => RequestView::FindContainers(p@),
            Request::HeadTarget(p) => RequestView::HeadTarget(p@),
            Request::FindBranch(p, b, remote) => RequestView::FindBranch(p@, b@, *remote),
            Request::Branches(p, remote) => RequestView::Branches(p@, *remote),
            Request::FreshId(taken) => RequestView::FreshId(taken.deep_view()),
            Request::PrintRegistry(m) => RequestView::PrintRegistry(m@),
            Request::PrintStatus(report) => RequestView::PrintStatus(report@),
            Request::PrintWorktrees(all) => RequestView::PrintWorktrees(all.deep_view()),
            Request::Say(s, line) => RequestView::Say(*s, line@),
        }
    }
}

/// What came of a request.
#[derive(Debug)]
pub enum Reply {
    /// `git` ran and ended like this.
    Git(GitOutput),
    /// This stands at the path.
    Kind(PathKind),
    /// The text of the file; nothing where there is no file.
    Text(Option<String>),
    /// Yes or no.
    Flag(bool),
    /// A path.
    Path(String),
    /// A name, or none.
    Name(Option<String>),
    /// Names.
    Names(Vec<String>),
    /// A descriptor.
    Baum(BaumManifest),
    /// A registry.
    Manifest(Manifest),
    /// A configuration.
    Config(Config),
    /// A sync state.
    State(SyncState),
    /// It was done.
    Done,
    /// It could not be done, for this reason.
    Failed(String),
}

/// The value of a `Reply`.
pub enum ReplyView {
    Git(GitOutputView),
    Kind(PathKind),
    Text(Option<Seq<char>>),
    Flag(bool),
    Path(Seq<char>),
    Name(Option<Seq<char>>),
    Names(Seq<Seq<char>>),
    Baum(BaumView),
    Manifest(Registry),
    Config(Config),
    State(Option<Seq<char>>),
    Done,
    Failed(Seq<char>),
}

impl View for Reply {
    type V = ReplyView;

    open spec fn view(&self) -> ReplyView {
        match self {
            Reply::Git(out) => ReplyView::Git(out@),
            Reply::Kind(k) => ReplyView::Kind(*k),
            Reply::Text(t) => ReplyView::Text(t.deep_view()),
            Reply::Flag(b) => ReplyView::Flag(*b),
            Reply::Path(p) => ReplyView::Path(p@),
            Reply::Name(n) => ReplyView::Name(n.deep_view()),
            Reply::Names(n) => ReplyView::Names(n.deep_view()),
            Reply::Baum(b) => ReplyView::Baum(b@),
            Reply::Manifest(m) => ReplyView::Manifest(m@),
            Reply::Config(c) => ReplyView::Config(*c),
            Reply::State(s) => ReplyView::State(s@),
            Reply::Done => ReplyView::Done,
            Reply::Failed(msg) => ReplyView::Failed(msg@),
        }
    }
}

impl DeepView for Reply {
    type V = ReplyView;

    open spec fn deep_view(&self) -> ReplyView {
        self@
    }
}

/// The replies that an operation has been given so far.
pub type Replies = Seq<ReplyView>;

/// One step of an operation.
#[derive(Debug)]
pub enum Progress<T> {
    /// The operation is done, with this result.
    Done(T),
    /// The driver is to perform this request and call again with the reply
    /// appended.
    Ask(Request),
    /// The operation has failed.
    Failed(Failure),
}

/// One step of an operation, as a value. A step that is done says how many
/// replies it has used.
pub enum Outcome<V> {
    Done(V, int),
    Ask(RequestView),
    Failed(FailureView),
}

/// Whether a step that ended at reply `pos` is the step `m`.
pub open spec fn agrees<T: DeepView>(r: Progress<T>, pos: usize, m: Outcome<T::V>) -> bool {
    match r {
        Progress::Done(v) => m == Outcome::Done(v.deep_view(), pos as int),
        Progress::Ask(q) => m == Outcome::<T::V>::Ask(q@),
        Progress::Failed(f) => m == Outcome::<T::V>::Failed(f@),
    }
}

/// The failure that stands for a reply of the wrong kind.
pub open spec fn driver_fault() -> FailureView {
    failure(ErrorKind::Driver, "the reply does not answer the request"@)
}

/// A failure whose message is a context, a colon and the cause.
pub open spec fn caused(kind: ErrorKind, context: Seq<char>, cause: Seq<char>) -> FailureView {
    failure(kind, context + ": "@ + cause)
}

/// Builds the failure that stands for a reply of the wrong kind.
pub fn driver_failure() -> (f: Failure)
    ensures
        f@ == driver_fault(),
{
    Failure::new(ErrorKind::Driver, "the reply does not answer the request".to_owned())
}

/// Builds a failure whose message is a context, a colon and the cause.
pub fn caused_failure(kind: ErrorKind, context: &str, cause: &str) -> (f: Failure)
    ensures
        f@ == caused(kind, context@, cause@),
{
    let mut m = to_chars(context);
    append_str(&mut m, ": ");
    append_str(&mut m, cause);
    Failure::new(kind, from_chars(&m))
}

/// The reply at `pos`, if the driver has given it.
pub open spec fn reply_at(replies: Replies, pos: int) -> Option<ReplyView> {
    if 0 <= pos < replies.len() {
        Some(replies[pos])
    } else {
        None
    }
}

/// Takes the reply at `pos`, or hands the request back for the driver.
pub fn exchange<'a>(replies: &'a Vec<Reply>, pos: &mut usize, request: Request) -> (r: Result<
    &'a Reply,
    Request,
>)
    ensures
        match r {
            Ok(reply) => reply_at(replies.deep_view(), *old(pos) as int) == Some(reply@)
                && *final(pos) == *old(pos) + 1,
            Err(q) => reply_at(replies.deep_view(), *old(pos) as int).is_none() && q == request
                && *final(pos) == *old(pos),
        },
{
    if *pos < replies.len() {
        let reply = &replies[*pos];
        *pos = *pos + 1;
        Ok(reply)
    } else {
        Err(request)
    }
}

/// A run of `git` that must start: where it cannot be started the
/// operation fails with the context and the cause.
pub open spec fn git_step(replies: Replies, pos: int, args: Seq<Seq<char>>, context: Seq<char>)
    -> Outcome<GitOutputView> {
    match reply_at(replies, pos) {
        None => Outcome::Ask(RequestView::Git(args)),
        Some(ReplyView::Git(out)) => Outcome::Done(out, pos + 1),
        Some(ReplyView::Failed(cause)) => Outcome::Failed(caused(ErrorKind::Git, context, cause)),
        Some(_) => Outcome::Failed(driver_fault()),
    }
}

/// Asks for a run of `git` that must start.
pub fn ask_git<'a>(replies: &'a Vec<Reply>, pos: &mut usize, args: Vec<String>, context: &str) -> (r:
    Progress<&'a GitOutput>)
    ensures
        agrees(
            r,
            *final(pos),
            git_step(replies.deep_view(), *old(pos) as int, args.deep_view(), context@),
        ),
{
    match exchange(replies, pos, Request::Git(args)) {
        Err(q) => Progress::Ask(q),
        Ok(Reply::Git(out)) => Progress::Done(out),
        Ok(Reply::Failed(cause)) => Progress::Failed(
            caused_failure(ErrorKind::Git, context, cause.as_str()),
        ),
        Ok(_) => Progress::Failed(driver_failure()),
    }
}

/// A run of `git` whose outcome does not matter: it is asked for, and
/// whatever comes back is accepted.
pub open spec fn git_try_step(replies: Replies, pos: int, args: Seq<Seq<char>>) -> Outcome<()> {
    match reply_at(replies, pos) {
        None => Outcome::Ask(RequestView::Git(args)),
        Some(_) => Outcome::Done((), pos + 1),
    }
}

/// Asks for a run of `git` whose outcome does not matter.
pub fn try_git(replies: &Vec<Reply>, pos: &mut usize, args: Vec<String>) -> (r: Progress<()>)
    ensures
        agrees(r, *final(pos), git_try_step(replies.deep_view(), *old(pos) as int, args.deep_view())),
{
    match exchange(replies, pos, Request::Git(args)) {
        Err(q) => Progress::Ask(q),
        Ok(_) => Progress::Done(()),
    }
}

/// What stands at a path.
pub open spec fn stat_step(replies: Replies, pos: int, path: Seq<char>) -> Outcome<PathKind> {
    match reply_at(replies, pos) {
        None => Outcome::Ask(RequestView::Stat(path)),
        Some(ReplyView::Kind(k)) => Outcome::Done(k, pos + 1),
        Some(_) => Outcome::Failed(driver_fault()),
    }
}

/// Asks what stands at a path.
pub fn ask_stat(replies: &Vec<Reply>, pos: &mut usize, path: &str) -> (r: Progress<PathKind>)
    ensures
        agrees(r, *final(pos), stat_step(replies.deep_view(), *old(pos) as int, path@)),
{
    match exchange(replies, pos, Request::Stat(path.to_owned())) {
        Err(q) => Progress::Ask(q),
        Ok(Reply::Kind(k)) => Progress::Done(*k),
        Ok(_) => Progress::Failed(driver_failure()),
    }
}

/// The text of a file; the empty text where there is no file.
pub open spec fn text_step(replies: Replies, pos: int, path: Seq<char>, context: Seq<char>)
    -> Outcome<Seq<char>> {
    match reply_at(replies, pos) {
        None => Outcome::Ask(RequestView::ReadText(path)),
        Some(ReplyView::Text(Some(t))) => Outcome::Done(t, pos + 1),
        Some(ReplyView::Text(None)) => Outcome::Done(Seq::<char>::empty(), pos + 1),
        Some(ReplyView::Failed(cause)) => Outcome::Failed(
            caused(ErrorKind::Filesystem, context + ": "@ + path, cause),
        ),
        Some(_) => Outcome::Failed(driver_fault()),
    }
}

/// Asks for the text of a file.
pub fn ask_text(replies: &Vec<Reply>, pos: &mut usize, path: &str, context: &str) -> (r: Progress<
    String,
>)
    ensures
        agrees(r, *final(pos), text_step(replies.deep_view(), *old(pos) as int, path@, context@)),
{
    match exchange(replies, pos, Request::ReadText(path.to_owned())) {
        Err(q) => Progress::Ask(q),
        Ok(Reply::Text(Some(t))) => Progress::Done(t.clone()),
        Ok(Reply::Text(None)) => Progress::Done(String::new()),
        Ok(Reply::Failed(cause)) => {
            let mut c = to_chars(context);
            append_str(&mut c, ": ");
            append_str(&mut c, path);
            let c = from_chars(&c);
            Progress::Failed(caused_failure(ErrorKind::Filesystem, c.as_str(), cause.as_str()))
        },
        Ok(_) => Progress::Failed(driver_failure()),
    }
}

/// A request that is either done or fails the operation.
pub open spec fn done_step(
    replies: Replies,
    pos: int,
    request: RequestView,
    kind: ErrorKind,
    context: Seq<char>,
) -> Outcome<()> {
    match reply_at(replies, pos) {
        None => Outcome::Ask(request),
        Some(ReplyView::Done) => Outcome::Done((), pos + 1),
        Some(ReplyView::Failed(cause)) => Outcome::Failed(caused(kind, context, cause)),
        Some(_) => Outcome::Failed(driver_fault()),
    }
}

/// Asks for something to be done.
pub fn ask_done(
    replies: &Vec<Reply>,
    pos: &mut usize,
    request: Request,
    kind: ErrorKind,
    context: &str,
) -> (r: Progress<()>)
    ensures
        agrees(
            r,
            *final(pos),
            done_step(replies.deep_view(), *old(pos) as int, request@, kind, context@),
        ),
{
    match exchange(replies, pos, request) {
        Err(q) => Progress::Ask(q),
        Ok(Reply::Done) => Progress::Done(()),
        Ok(Reply::Failed(cause)) => Progress::Failed(caused_failure(kind, context, cause.as_str())),
        Ok(_) => Progress::Failed(driver_failure()),
    }
}

/// A request whose outcome does not matter.
pub open spec fn try_step(replies: Replies, pos: int, request: RequestView) -> Outcome<()> {
    match reply_at(replies, pos) {
        None => Outcome::Ask(request),
        Some(_) => Outcome::Done((), pos + 1),
    }
}

/// Asks for something whose outcome does not matter.
pub fn try_ask(replies: &Vec<Reply>, pos: &mut usize, request: Request) -> (r: Progress<()>)
    ensures
        agrees(r, *final(pos), try_step(replies.deep_view(), *old(pos) as int, request@)),
{
    match exchange(replies, pos, request) {
        Err(q) => Progress::Ask(q),
        Ok(_) => Progress::Done(()),
    }
}

/// A question that is answered by yes or no, or fails the operation.
pub open spec fn flag_step(
    replies: Replies,
    pos: int,
    request: RequestView,
    context: Seq<char>,
) -> Outcome<bool> {
    match reply_at(replies, pos) {
        None => Outcome::Ask(request),
        Some(ReplyView::Flag(b)) => Outcome::Done(b, pos + 1),
        Some(ReplyView::Failed(cause)) => Outcome::Failed(
            caused(ErrorKind::Filesystem, context, cause),
        ),
        Some(_) => Outcome::Failed(driver_fault()),
    }
}

/// Asks a question that is answered by yes or no.
pub fn ask_flag(replies: &Vec<Reply>, pos: &mut usize, request: Request, context: &str) -> (r:
    Progress<bool>)
    ensures
        agrees(
            r,
            *final(pos),
            flag_step(replies.deep_view(), *old(pos) as int, request@, context@),
        ),
{
    match exchange(replies, pos, request) {
        Err(q) => Progress::Ask(q),
        Ok(Reply::Flag(b)) => Progress::Done(*b),
        Ok(Reply::Failed(cause)) => Progress::Failed(
            caused_failure(ErrorKind::Filesystem, context, cause.as_str()),
        ),
        Ok(_) => Progress::Failed(driver_failure()),
    }
}

/// A question that is answered by a path, or not at all: a failure to
/// answer is no failure of the operation.
pub open spec fn path_step(replies: Replies, pos: int, request: RequestView) -> Outcome<
    Option<Seq<char>>,
> {
    match reply_at(replies, pos) {
        None => Outcome::Ask(request),
        Some(ReplyView::Path(p)) => Outcome::Done(Some(p), pos + 1),
        Some(ReplyView::Failed(_)) => Outcome::Done(None, pos + 1),
        Some(_) => Outcome::Failed(driver_fault()),
    }
}

/// Asks a question that is answered by a path, if at all.
pub fn ask_path(replies: &Vec<Reply>, pos: &mut usize, request: Request) -> (r: Progress<
    Option<String>,
>)
    ensures
        agrees(r, *final(pos), path_step(replies.deep_view(), *old(pos) as int, request@)),
{
    match exchange(replies, pos, request) {
        Err(q) => Progress::Ask(q),
        Ok(Reply::Path(p)) => Progress::Done(Some(p.clone())),
        Ok(Reply::Failed(_)) => Progress::Done(None),
        Ok(_) => Progress::Failed(driver_failure()),
    }
}

/// A run of `git` that must start and must succeed: where it ends without
/// success the operation fails with the message and what `git` wrote to its
/// standard error.
pub open spec fn git_checked_step(
    replies: Replies,
    pos: int,
    args: Seq<Seq<char>>,
    context: Seq<char>,
    message: Seq<char>,
) -> Outcome<GitOutputView> {
    match git_step(replies, pos, args, context) {
        Outcome::Done(run, next) => if run.success {
            Outcome::Done(run, next)
        } else {
            Outcome::Failed(failure(ErrorKind::Git, message + ": "@ + crate::split::trim(run.stderr)))
        },
        Outcome::Ask(q) => Outcome::Ask(q),
        Outcome::Failed(f) => Outcome::Failed(f),
    }
}

/// Asks for a run of `git` that must start and must succeed.
pub fn ask_git_checked<'a>(
    replies: &'a Vec<Reply>,
    pos: &mut usize,
    args: Vec<String>,
    context: &str,
    message: &str,
) -> (r: Progress<&'a GitOutput>)
    ensures
        agrees(
            r,
            *final(pos),
            git_checked_step(
                replies.deep_view(),
                *old(pos) as int,
                args.deep_view(),
                context@,
                message@,
            ),
        ),
{
    match ask_git(replies, pos, args, context) {
        Progress::Done(run) => if run.success {
            Progress::Done(run)
        } else {
            let mut m = to_chars(message);
            append_str(&mut m, ": ");
            let t = crate::split::trim_str(run.stderr.as_str());
            append_str(&mut m, t.as_str());
            Progress::Failed(Failure::new(ErrorKind::Git, from_chars(&m)))
        },
        Progress::Ask(q) => Progress::Ask(q),
        Progress::Failed(f) => Progress::Failed(f),
    }
}

/// A question that is answered by a name or by none, or fails the
/// operation.
pub open spec fn name_step(
    replies: Replies,
    pos: int,
    request: RequestView,
    context: Seq<char>,
) -> Outcome<Option<Seq<char>>> {
    match reply_at(replies, pos) {
        None => Outcome::Ask(request),
        Some(ReplyView::Name(n)) => Outcome::Done(n, pos + 1),
        Some(ReplyView::Failed(cause)) => Outcome::Failed(
            caused(ErrorKind::Filesystem, context, cause),
        ),
        Some(_) => Outcome::Failed(driver_fault()),
    }
}

/// Asks a question that is answered by a name or by none.
pub fn ask_name(replies: &Vec<Reply>, pos: &mut usize, request: Request, context: &str) -> (r:
    Progress<Option<String>>)
    ensures
        agrees(
            r,
            *final(pos),
            name_step(replies.deep_view(), *old(pos) as int, request@, context@),
        ),
{
    match exchange(replies, pos, request) {
        Err(q) => Progress::Ask(q),
        Ok(Reply::Name(n)) => Progress::Done(crate::split::clone_opt(n)),
        Ok(Reply::Failed(cause)) => Progress::Failed(
            caused_failure(ErrorKind::Filesystem, context, cause.as_str()),
        ),
        Ok(_) => Progress::Failed(driver_failure()),
    }
}

/// A question that is answered by a list of names, or fails the operation.
pub open spec fn names_step(
    replies: Replies,
    pos: int,
    request: RequestView,
    context: Seq<char>,
) -> Outcome<Seq<Seq<char>>> {
    match reply_at(replies, pos) {
        None => Outcome::Ask(request),
        Some(ReplyView::Names(n)) => Outcome::Done(n, pos + 1),
        Some(ReplyView::Failed(cause)) => Outcome::Failed(
            caused(ErrorKind::Filesystem, context, cause),
        ),
        Some(_) => Outcome::Failed(driver_fault()),
    }
}

/// Asks a question that is answered by a list of names.
pub fn ask_names(replies: &Vec<Reply>, pos: &mut usize, request: Request, context: &str) -> (r:
    Progress<Vec<String>>)
    ensures
        agrees(
            r,
            *final(pos),
            names_step(replies.deep_view(), *old(pos) as int, request@, context@),
        ),
{
    match exchange(replies, pos, request) {
        Err(q) => Progress::Ask(q),
        Ok(Reply::Names(n)) => Progress::Done(crate::split::clone_strings(n)),
        Ok(Reply::Failed(cause)) => Progress::Failed(
            caused_failure(ErrorKind::Filesystem, context, cause.as_str()),
        ),
        Ok(_) => Progress::Failed(driver_failure()),
    }
}

/// Something that was read, or the reason why it could not be read.
#[derive(Debug)]
pub enum Loaded<T> {
    Value(T),
    Broken(String),
}

/// The value of a `Loaded`.
pub enum LoadedView<V> {
    Value(V),
    Broken(Seq<char>),
}

impl<T: DeepView> DeepView for Loaded<T> {
    type V = LoadedView<T::V>;

    open spec fn deep_view(&self) -> LoadedView<T::V> {
        match self {
            Loaded::Value(v) => LoadedView::Value(v.deep_view()),
            Loaded::Broken(cause) => LoadedView::Broken(cause@),
        }
    }
}

/// Reading the descriptor of the baum in a container; a descriptor that
/// cannot be read is reported, and does not fail the operation.
pub open spec fn try_load_baum_step(replies: Replies, pos: int, container: Seq<char>) -> Outcome<
    LoadedView<BaumView>,
> {
    match reply_at(replies, pos) {
        None => Outcome::Ask(RequestView::LoadBaum(container)),
        Some(ReplyView::Baum(b)) => Outcome::Done(LoadedView::Value(b), pos + 1),
        Some(ReplyView::Failed(cause)) => Outcome::Done(LoadedView::Broken(cause), pos + 1),
        Some(_) => Outcome::Failed(driver_fault()),
    }
}

/// Asks for the descriptor of the baum in a container.
pub fn try_load_baum(replies: &Vec<Reply>, pos: &mut usize, container: &str) -> (r: Progress<
    Loaded<BaumManifest>,
>)
    ensures
        agrees(r, *final(pos), try_load_baum_step(replies.deep_view(), *old(pos) as int, container@)),
{
    match exchange(replies, pos, Request::LoadBaum(container.to_owned())) {
        Err(q) => Progress::Ask(q),
        Ok(Reply::Baum(b)) => Progress::Done(Loaded::Value(b.clone())),
        Ok(Reply::Failed(cause)) => Progress::Done(Loaded::Broken(cause.clone())),
        Ok(_) => Progress::Failed(driver_failure()),
    }
}

/// A fresh baum ID. The driver draws it; it is accepted only if it is six
/// lowercase hexadecimal digits and none of the IDs that are taken.
pub open spec fn fresh_id_step(replies: Replies, pos: int, taken: Seq<Seq<char>>) -> Outcome<
    Seq<char>,
> {
    match reply_at(replies, pos) {
        None => Outcome::Ask(RequestView::FreshId(taken)),
        Some(ReplyView::Name(Some(id))) => if is_baum_id(id) && !taken.contains(id) {
            Outcome::Done(id, pos + 1)
        } else {
            Outcome::Failed(driver_fault())
        },
        Some(ReplyView::Failed(cause)) => Outcome::Failed(
            caused(ErrorKind::Filesystem, "failed to generate a baum ID"@, cause),
        ),
        Some(_) => Outcome::Failed(driver_fault()),
    }
}

/// Asks for a fresh baum ID and checks what comes back.
pub fn ask_fresh_id(replies: &Vec<Reply>, pos: &mut usize, taken: &StringSet) -> (r: Progress<String>)
    ensures
        agrees(r, *final(pos), fresh_id_step(replies.deep_view(), *old(pos) as int, taken.listing())),
{
    proof {
        taken.lemma_listing();
    }
    match exchange(replies, pos, Request::FreshId(taken.to_vec())) {
        Err(q) => Progress::Ask(q),
        Ok(Reply::Name(Some(id))) => {
            if is_valid_baum_id(id.as_str()) && !taken.contains(id.as_str()) {
                Progress::Done(id.clone())
            } else {
                Progress::Failed(driver_failure())
            }
        },
        Ok(Reply::Failed(cause)) => Progress::Failed(
            caused_failure(ErrorKind::Filesystem, "failed to generate a baum ID", cause.as_str()),
        ),
        Ok(_) => Progress::Failed(driver_failure()),
    }
}

/// A line for the user.
pub open spec fn say_step(replies: Replies, pos: int, stream: Stream, line: Option<Seq<char>>)
    -> Outcome<()> {
    match line {
        None => Outcome::Done((), pos),
        Some(text) => try_step(replies, pos, RequestView::Say(stream, text)),
    }
}

/// Prints `line`, where there is one.
pub fn say(replies: &Vec<Reply>, pos: &mut usize, stream: Stream, line: Option<String>) -> (r:
    Progress<()>)
    ensures
        agrees(
            r,
            *final(pos),
            say_step(replies.deep_view(), *old(pos) as int, stream, line.deep_view()),
        ),
{
    match line {
        None => Progress::Done(()),
        Some(text) => try_ask(replies, pos, Request::Say(stream, text)),
    }
}

} // verus!
