//! Canonical repository identifiers: `host/path/to/repo`.
//!
//! The path may be as deep as the hosting service allows, so that
//! `github.com/user/repo` and `git.zib.de/iol/research/project` are both
//! identifiers. The last segment is the repository's name.

use vstd::prelude::*;
use crate::split::{
    has_char, join, join_strs, lemma_split_join, lemma_split_len, lemma_split_pieces,
    lemma_trim_edges, lemma_trim_end_shape, lemma_trim_fixed, lemma_trim_start_shape, split,
    split_str, trim, trim_start, trim_str,
};
use crate::text::{from_chars, push_all, str_eq, to_chars};

verus! {

/// A repository identifier: a host and at least one path segment.
#[derive(Debug, Clone, PartialEq, Eq, Hash)]
pub struct RepoId {
    /// Host part, such as `github.com`; a port may follow the name.
    pub host: String,
    /// Path segments after the host; the last one is the repository's name.
    pub path: Vec<String>,
}

/// The mathematical value of a `RepoId`.
pub struct RepoIdView {
    pub host: Seq<char>,
    pub path: Seq<Seq<char>>,
}

impl View for RepoId {
    type V = RepoIdView;

    open spec fn view(&self) -> RepoIdView {
        RepoIdView { host: self.host@, path: self.path.deep_view() }
    }
}

/// Why a string is not a repository identifier. Each variant carries the
/// string that was rejected.
#[derive(Debug, Clone, PartialEq, Eq)]
pub enum RepoIdError {
    /// The string has not the shape of an identifier at all.
    InvalidFormat(String),
    /// A segment between two slashes is empty or white space only.
    EmptyComponent(String),
    /// There is a host but no path, or nothing at all.
    TooFewSegments(String),
}

/// The mathematical value of a `RepoIdError`.
pub enum RepoIdErrorView {
    InvalidFormat(Seq<char>),
    EmptyComponent(Seq<char>),
    TooFewSegments(Seq<char>),
}

impl View for RepoIdError {
    type V = RepoIdErrorView;

    open spec fn view(&self) -> RepoIdErrorView {
        match self {
            RepoIdError::InvalidFormat(s) => RepoIdErrorView::InvalidFormat(s@),
            RepoIdError::EmptyComponent(s) => RepoIdErrorView::EmptyComponent(s@),
            RepoIdError::TooFewSegments(s) => RepoIdErrorView::TooFewSegments(s@),
        }
    }
}

/// The separator of the segments of an identifier.
pub open spec fn slash() -> Seq<char> {
    seq!['/']
}

/// A segment as an identifier holds it: not empty, without a slash, and
/// without white space at its ends.
pub open spec fn is_segment(s: Seq<char>) -> bool {
    s.len() > 0 && !has_char(s, '/') && trim(s) == s
}

/// Every piece trimmed.
pub open spec fn trimmed(parts: Seq<Seq<char>>) -> Seq<Seq<char>> {
    parts.map_values(|p: Seq<char>| trim(p))
}

/// What parsing makes of a string: the identifier, or the reason why there
/// is none. Fewer than two segments are too few; a host or a segment that is
/// empty once trimmed is an empty component.
pub open spec fn parsed_repo_id(s: Seq<char>) -> Result<RepoIdView, RepoIdErrorView> {
    let parts = trimmed(split(s, '/'));
    if parts.len() < 2 {
        Err(RepoIdErrorView::TooFewSegments(s))
    } else if exists|i: int| 0 <= i < parts.len() && #[trigger] parts[i].len() == 0 {
        Err(RepoIdErrorView::EmptyComponent(s))
    } else {
        Ok(RepoIdView { host: parts[0], path: parts.drop_first() })
    }
}

impl RepoIdView {
    /// Host and segments are proper segments, and there is a name.
    pub open spec fn wf(self) -> bool {
        &&& is_segment(self.host)
        &&& self.path.len() >= 1
        &&& forall|i: int| 0 <= i < self.path.len() ==> is_segment(#[trigger] self.path[i])
    }

    /// The canonical string `host/seg1/.../name`, which is also how an
    /// identifier is displayed.
    pub open spec fn canonical(self) -> Seq<char> {
        self.host + slash() + join(self.path, slash())
    }

    /// The repository's name: the last segment.
    pub open spec fn name(self) -> Seq<char> {
        if self.path.len() > 0 {
            self.path.last()
        } else {
            Seq::<char>::empty()
        }
    }

    /// The segments before the name, joined by slashes.
    pub open spec fn owner_path(self) -> Seq<char> {
        if self.path.len() <= 1 {
            Seq::<char>::empty()
        } else {
            join(self.path.drop_last(), slash())
        }
    }

    /// The path of the bare clone below the directory of all clones:
    /// `host/owner/path/name.git`.
    pub open spec fn bare_path(self) -> Seq<char>
        recommends
            self.path.len() >= 1,
    {
        join(
            seq![self.host] + self.path.drop_last().push(self.path.last() + ".git"@),
            slash(),
        )
    }

    /// The URL to clone from. One host serves HTTPS and knows a repository by
    /// its name alone; every other host is reached over SSH with the full
    /// path.
    pub open spec fn clone_url(self) -> Seq<char> {
        if self.host == "git.overleaf.com"@ {
            "https://git.overleaf.com/"@ + self.name()
        } else {
            "git@"@ + self.host + ":"@ + join(self.path, slash()) + ".git"@
        }
    }
}

proof fn lemma_trim_no_slash(s: Seq<char>)
    requires
        !has_char(s, '/'),
    ensures
        !has_char(trim(s), '/'),
        trim(trim(s)) == trim(s),
{
    lemma_trim_start_shape(s);
    lemma_trim_end_shape(trim_start(s));
    lemma_trim_edges(s);
    lemma_trim_fixed(trim(s));
    let a = trim_start(s);
    let t = trim(s);
    if has_char(t, '/') {
        let i = choose|i: int| 0 <= i < t.len() && t[i] == '/';
        assert(a[i] == '/');
        assert(s[s.len() - a.len() + i] == '/');
    }
}

/// What parsing accepts is well formed.
pub proof fn lemma_parsed_wf(s: Seq<char>)
    ensures
        parsed_repo_id(s) matches Ok(id) ==> id.wf(),
{
    let pieces = split(s, '/');
    let parts = trimmed(pieces);
    lemma_split_len(s, '/');
    lemma_split_pieces(s, '/');
    if let Ok(id) = parsed_repo_id(s) {
        assert forall|i: int| 0 <= i < parts.len() implies is_segment(#[trigger] parts[i]) by {
            assert(!has_char(pieces[i], '/')) by {
                if has_char(pieces[i], '/') {
                    let j = choose|j: int| 0 <= j < pieces[i].len() && pieces[i][j] == '/';
                    assert(split(s, '/')[i][j] != '/');
                }
            }
            lemma_trim_no_slash(pieces[i]);
            assert(parts[i] == trim(pieces[i]));
            assert(parts[i].len() != 0);
        }
        assert(id.host == parts[0]);
        assert forall|i: int| 0 <= i < id.path.len() implies is_segment(#[trigger] id.path[i]) by {
            assert(id.path[i] == parts[i + 1]);
        }
    }
}

proof fn lemma_join_cons(host: Seq<char>, path: Seq<Seq<char>>)
    requires
        path.len() >= 1,
    ensures
        join(seq![host] + path, slash()) == host + slash() + join(path, slash()),
    decreases path.len(),
{
    let all = seq![host] + path;
    assert(all.drop_last() == seq![host] + path.drop_last());
    assert(all.last() == path.last());
    if path.len() == 1 {
        assert(seq![host] + path.drop_last() == seq![host]);
        assert(join(seq![host], slash()) == host);
    } else {
        lemma_join_cons(host, path.drop_last());
        assert(host + slash() + join(path.drop_last(), slash()) + slash() + path.last() == host
            + slash() + (join(path.drop_last(), slash()) + slash() + path.last()));
    }
}

/// Parsing the canonical string of a well-formed identifier gives the
/// identifier back.
pub proof fn lemma_repo_id_round_trip(id: RepoIdView)
    requires
        id.wf(),
    ensures
        parsed_repo_id(id.canonical()) == Ok::<RepoIdView, RepoIdErrorView>(id),
{
    let all = seq![id.host] + id.path;
    lemma_join_cons(id.host, id.path);
    assert forall|i: int| 0 <= i < all.len() implies !has_char(#[trigger] all[i], '/') by {
        if i > 0 {
            assert(all[i] == id.path[i - 1]);
        }
    }
    lemma_split_join(all, '/');
    let parts = trimmed(split(id.canonical(), '/'));
    assert(parts == all) by {
        assert forall|i: int| 0 <= i < all.len() implies parts[i] == all[i] by {
            if i > 0 {
                assert(all[i] == id.path[i - 1]);
            }
        }
    }
    assert(!(exists|i: int| 0 <= i < parts.len() && #[trigger] parts[i].len() == 0)) by {
        assert forall|i: int| 0 <= i < parts.len() implies #[trigger] parts[i].len() != 0 by {
            if i > 0 {
                assert(all[i] == id.path[i - 1]);
            }
        }
    }
    assert(parts.drop_first() == id.path);
}

impl RepoId {
    /// Parses a repository identifier such as `github.com/user/repo`.
    pub fn parse(s: &str) -> (r: Result<RepoId, RepoIdError>)
        ensures
            match r {
                Ok(id) => parsed_repo_id(s@) == Ok::<RepoIdView, RepoIdErrorView>(id@) && id@.wf(),
                Err(e) => parsed_repo_id(s@) == Err::<RepoIdView, RepoIdErrorView>(e@),
            },
    {
        let pieces = split_str(s, '/');
        let ghost parts = trimmed(split(s@, '/'));
        if pieces.len() < 2 {
            return Err(RepoIdError::TooFewSegments(from_chars(&to_chars(s))));
        }
        let mut trimmed_parts: Vec<String> = Vec::new();
        let mut i: usize = 0;
        while i < pieces.len()
            invariant
                i <= pieces.len(),
                pieces.len() >= 2,
                pieces.deep_view() == split(s@, '/'),
                parts == trimmed(split(s@, '/')),
                trimmed_parts.deep_view() == parts.take(i as int),
                forall|j: int| 0 <= j < i ==> (#[trigger] parts[j]).len() != 0,
            decreases pieces.len() - i,
        {
            let t = trim_str(pieces[i].as_str());
            assert(pieces.deep_view()[i as int] == pieces[i as int]@);
            assert(t@ == parts[i as int]);
            if t.as_str().unicode_len() == 0 {
                return Err(RepoIdError::EmptyComponent(from_chars(&to_chars(s))));
            }
            let ghost before = trimmed_parts.deep_view();
            trimmed_parts.push(t);
            assert(trimmed_parts.deep_view() == before.push(t@));
            assert(parts.take(i + 1) == parts.take(i as int).push(parts[i as int]));
            i += 1;
        }
        assert(parts.take(parts.len() as int) == parts);
        let host = trimmed_parts.remove(0);
        assert(trimmed_parts.deep_view() == parts.drop_first());
        let id = RepoId { host, path: trimmed_parts };
        proof {
            lemma_parsed_wf(s@);
        }
        Ok(id)
    }

    /// The path of the bare clone, relative to the directory that holds all
    /// clones: `host/path/to/repo.git`.
    pub fn to_bare_path(&self) -> (out: String)
        requires
            self@.path.len() >= 1,
        ensures
            out@ == self@.bare_path(),
    {
        let mut parts: Vec<String> = Vec::new();
        parts.push(self.host.clone());
        let n: usize = self.path.len();
        let mut i: usize = 0;
        assert(parts.deep_view() == seq![self@.host] + self@.path.take(0));
        while i < n - 1
            invariant
                n == self.path.len(),
                n >= 1,
                i <= n - 1,
                parts.deep_view() == seq![self@.host] + self@.path.take(i as int),
            decreases n - i,
        {
            let ghost before = parts.deep_view();
            parts.push(self.path[i].clone());
            assert(parts.deep_view() == before.push(self.path[i as int]@));
            assert(self@.path.take(i + 1) == self@.path.take(i as int).push(self@.path[i as int]));
            i += 1;
        }
        let mut last = to_chars(self.path[n - 1].as_str());
        let ext = to_chars(".git");
        push_all(&mut last, &ext);
        let ghost before = parts.deep_view();
        let name = from_chars(&last);
        parts.push(name);
        assert(parts.deep_view() == before.push(name@));
        assert(self@.path.take(n - 1) == self@.path.drop_last());
        assert(parts.deep_view() == seq![self@.host] + self@.path.drop_last().push(
            self@.path.last() + ".git"@,
        ));
        proof {
            reveal_strlit("/");
        }
        assert("/"@ == slash());
        join_strs(&parts, "/")
    }

    /// The canonical string `host/seg1/.../name`.
    pub fn as_str(&self) -> (out: String)
        ensures
            out@ == self@.canonical(),
    {
        let mut out = to_chars(self.host.as_str());
        out.push('/');
        proof {
            reveal_strlit("/");
        }
        assert("/"@ == slash());
        let p = join_strs(&self.path, "/");
        let pc = to_chars(p.as_str());
        push_all(&mut out, &pc);
        from_chars(&out)
    }

    /// The repository's name: the last path segment, or the empty string
    /// where there is none.
    pub fn name(&self) -> (out: &str)
        ensures
            out@ == self@.name(),
    {
        let n = self.path.len();
        if n > 0 {
            assert(self.path.deep_view().last() == self.path[n - 1]@);
            self.path[n - 1].as_str()
        } else {
            let e = "";
            proof {
                reveal_strlit("");
            }
            assert(e@ == Seq::<char>::empty());
            e
        }
    }

    /// The owner or group path: every segment but the last, joined by
    /// slashes. `github.com/user/repo` has the owner path `user`.
    pub fn owner_path(&self) -> (out: String)
        ensures
            out@ == self@.owner_path(),
    {
        let n: usize = self.path.len();
        if n <= 1 {
            return String::new();
        }
        let mut parts: Vec<String> = Vec::new();
        let mut i: usize = 0;
        assert(parts.deep_view() == self@.path.take(0));
        while i < n - 1
            invariant
                n == self.path.len(),
                n >= 1,
                i <= n - 1,
                parts.deep_view() == self@.path.take(i as int),
            decreases n - i,
        {
            let ghost before = parts.deep_view();
            parts.push(self.path[i].clone());
            assert(parts.deep_view() == before.push(self.path[i as int]@));
            assert(self@.path.take(i + 1) == self@.path.take(i as int).push(self@.path[i as int]));
            i += 1;
        }
        assert(self@.path.take(n - 1) == self@.path.drop_last());
        proof {
            reveal_strlit("/");
        }
        assert("/"@ == slash());
        join_strs(&parts, "/")
    }

    /// The URL from which the repository is cloned.
    pub fn to_clone_url(&self) -> (out: String)
        ensures
            out@ == self@.clone_url(),
    {
        proof {
            reveal_strlit("/");
        }
        assert("/"@ == slash());
        if str_eq(self.host.as_str(), "git.overleaf.com") {
            let mut out = to_chars("https://git.overleaf.com/");
            let name = to_chars(self.name());
            push_all(&mut out, &name);
            from_chars(&out)
        } else {
            let mut out = to_chars("git@");
            let host = to_chars(self.host.as_str());
            push_all(&mut out, &host);
            let colon = to_chars(":");
            push_all(&mut out, &colon);
            let p = join_strs(&self.path, "/");
            let pc = to_chars(p.as_str());
            push_all(&mut out, &pc);
            let ext = to_chars(".git");
            push_all(&mut out, &ext);
            from_chars(&out)
        }
    }
}

/// The message of each error.
pub open spec fn error_text(err: RepoIdErrorView) -> Seq<char> {
    match err {
        RepoIdErrorView::InvalidFormat(s) => "invalid repo ID format: expected host/path/to/repo, got '"@
            + s + "'"@,
        RepoIdErrorView::EmptyComponent(s) => "empty component in repo ID: '"@ + s + "'"@,
        RepoIdErrorView::TooFewSegments(s) => "repo ID requires at least host and one path segment: '"@
            + s + "'"@,
    }
}

impl std::str::FromStr for RepoId {
    type Err = RepoIdError;

    fn from_str(s: &str) -> (r: Result<RepoId, RepoIdError>)
        ensures
            match r {
                Ok(id) => parsed_repo_id(s@) == Ok::<RepoIdView, RepoIdErrorView>(id@) && id@.wf(),
                Err(e) => parsed_repo_id(s@) == Err::<RepoIdView, RepoIdErrorView>(e@),
            },
    {
        RepoId::parse(s)
    }
}

impl RepoIdError {
    /// The text of an error, as it is shown to the user.
    pub fn message(&self) -> (out: String)
        ensures
            out@ == error_text(self@),
    {
        let (head, input) = match self {
            RepoIdError::InvalidFormat(s) => (
                "invalid repo ID format: expected host/path/to/repo, got '",
                s,
            ),
            RepoIdError::EmptyComponent(s) => ("empty component in repo ID: '", s),
            RepoIdError::TooFewSegments(s) => (
                "repo ID requires at least host and one path segment: '",
                s,
            ),
        };
        let mut out = to_chars(head);
        let body = to_chars(input.as_str());
        push_all(&mut out, &body);
        let tail = to_chars("'");
        push_all(&mut out, &tail);
        from_chars(&out)
    }
}

} // verus!
