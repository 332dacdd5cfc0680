//! Container moves, read from the rename detection of the outer repository.
//!
//! `git diff -M --name-status --diff-filter=R` prints one line per renamed
//! file: `R<similarity>`, the old path and the new path, separated by tabs.
//! A container has moved where its descriptor, `.baum/manifest.yaml`, was
//! renamed.

use vstd::prelude::*;
use crate::decimal::{parse_decimal, parse_unsigned};
use crate::git::shell::GitOutput;
use crate::split::{lemma_split_len, lines, lines_chars, split, split_chars};
use crate::text::{ends_with, from_chars, has_suffix, subvec, to_chars};

verus! {

broadcast use crate::text::lemma_deep_view_chars;

/// A container that moved between two commits.
#[derive(Debug, Clone)]
pub struct MoveEntry {
    /// Where the container was.
    pub old_path: String,
    /// Where it is now.
    pub new_path: String,
    /// How similar git found the two descriptors, in percent.
    pub similarity: u8,
}

/// The value of a `MoveEntry`.
pub struct MoveEntryView {
    pub old_path: Seq<char>,
    pub new_path: Seq<char>,
    pub similarity: u8,
}

impl View for MoveEntry {
    type V = MoveEntryView;

    open spec fn view(&self) -> MoveEntryView {
        MoveEntryView {
            old_path: self.old_path@,
            new_path: self.new_path@,
            similarity: self.similarity,
        }
    }
}

impl DeepView for MoveEntry {
    type V = MoveEntryView;

    open spec fn deep_view(&self) -> MoveEntryView {
        self@
    }
}

/// The path of a descriptor below its container.
pub open spec fn descriptor_suffix() -> Seq<char> {
    ".baum/manifest.yaml"@
}

/// The same with the slash that separates it from the container.
pub open spec fn descriptor_suffix_slash() -> Seq<char> {
    "/.baum/manifest.yaml"@
}

/// The container of a descriptor path: the path without the descriptor
/// suffix and without the slash before it. A path that is no descriptor
/// path stays as it is.
pub open spec fn container_of(path: Seq<char>) -> Seq<char> {
    if ends_with(path, descriptor_suffix_slash()) {
        path.subrange(0, path.len() - descriptor_suffix_slash().len())
    } else if ends_with(path, descriptor_suffix()) {
        path.subrange(0, path.len() - descriptor_suffix().len())
    } else {
        path
    }
}

/// The similarity that a status field `R<number>` states; a hundred where
/// the number cannot be read.
pub open spec fn similarity_of(status: Seq<char>) -> u8
    recommends
        status.len() > 0,
{
    match parse_unsigned(status.drop_first(), 255) {
        Some(n) => n as u8,
        None => 100,
    }
}

/// The move that one line of output reports, if it reports one. A line
/// reports a move when it starts with `R`, has exactly three fields, and its
/// old path is the path of a descriptor.
pub open spec fn move_of_line(line: Seq<char>) -> Option<MoveEntryView> {
    let fields = split(line, '\t');
    if line.len() > 0 && line[0] == 'R' && fields.len() == 3 && ends_with(
        fields[1],
        descriptor_suffix(),
    ) {
        Some(
            MoveEntryView {
                old_path: container_of(fields[1]),
                new_path: container_of(fields[2]),
                similarity: similarity_of(fields[0]),
            },
        )
    } else {
        None
    }
}

/// The moves that a sequence of lines reports, in order.
pub open spec fn moves_of(all: Seq<Seq<char>>) -> Seq<MoveEntryView>
    decreases all.len(),
{
    if all.len() == 0 {
        Seq::<MoveEntryView>::empty()
    } else {
        match move_of_line(all.last()) {
            Some(m) => moves_of(all.drop_last()).push(m),
            None => moves_of(all.drop_last()),
        }
    }
}

/// The moves that the output of the rename detection reports.
pub open spec fn parsed_moves(output: Seq<char>) -> Seq<MoveEntryView> {
    moves_of(lines(output))
}

/// A line that does not start with `R`, that has not three fields, or whose
/// old path is no descriptor path reports nothing.
pub proof fn lemma_ignored_line(line: Seq<char>)
    ensures
        (line.len() == 0 || line[0] != 'R') ==> move_of_line(line).is_none(),
        split(line, '\t').len() != 3 ==> move_of_line(line).is_none(),
        split(line, '\t').len() == 3 && !ends_with(split(line, '\t')[1], descriptor_suffix())
            ==> move_of_line(line).is_none(),
{
}

/// Lines that report nothing change nothing, wherever they stand.
pub proof fn lemma_moves_skip_ignored(before: Seq<Seq<char>>, line: Seq<char>, after: Seq<Seq<char>>)
    requires
        move_of_line(line).is_none(),
    ensures
        moves_of(before.push(line) + after) == moves_of(before + after),
    decreases after.len(),
{
    if after.len() == 0 {
        assert(before.push(line) + after == before.push(line));
        assert(before + after == before);
        assert(before.push(line).drop_last() == before);
    } else {
        lemma_moves_skip_ignored(before, line, after.drop_last());
        assert((before.push(line) + after).drop_last() == before.push(line) + after.drop_last());
        assert((before + after).drop_last() == before + after.drop_last());
    }
}

/// The container path of a descriptor path is the path without the suffix,
/// whether or not a slash precedes the suffix.
pub proof fn lemma_container_of(container: Seq<char>)
    ensures
        container_of(container + descriptor_suffix_slash()) == container,
        (container.len() == 0 || container.last() != '/') ==> container_of(
            container + descriptor_suffix(),
        ) == container,
{
    reveal_strlit(".baum/manifest.yaml");
    reveal_strlit("/.baum/manifest.yaml");
    let a = container + descriptor_suffix_slash();
    assert(a.subrange(a.len() - descriptor_suffix_slash().len(), a.len() as int)
        == descriptor_suffix_slash());
    assert(a.subrange(0, a.len() - descriptor_suffix_slash().len()) == container);
    let b = container + descriptor_suffix();
    if container.len() == 0 || container.last() != '/' {
        assert(b.subrange(b.len() - descriptor_suffix().len(), b.len() as int)
            == descriptor_suffix());
        assert(b.subrange(0, b.len() - descriptor_suffix().len()) == container);
        if ends_with(b, descriptor_suffix_slash()) {
            let tail = b.subrange(b.len() - descriptor_suffix_slash().len(), b.len() as int);
            assert(tail[0] == '/');
            assert(tail[0] == b[b.len() - 20]);
            assert(b[b.len() - 20] == container[container.len() - 1]);
        }
    }
}

fn strip_descriptor(path: &Vec<char>) -> (out: Vec<char>)
    ensures
        out@ == container_of(path@),
{
    let with_slash = to_chars("/.baum/manifest.yaml");
    let bare = to_chars(".baum/manifest.yaml");
    if has_suffix(path, &with_slash) {
        subvec(path, 0, path.len() - with_slash.len())
    } else if has_suffix(path, &bare) {
        subvec(path, 0, path.len() - bare.len())
    } else {
        assert(path@.subrange(0, path.len() as int) == path@);
        subvec(path, 0, path.len())
    }
}

fn parse_similarity(status: &Vec<char>) -> (n: u8)
    requires
        status.len() > 0,
    ensures
        n == similarity_of(status@),
{
    let digits = subvec(status, 1, status.len());
    assert(digits@ == status@.drop_first());
    match parse_decimal(&digits, 255) {
        Some(n) => n as u8,
        None => 100,
    }
}

fn parse_move_line(line: &Vec<char>) -> (r: Option<MoveEntry>)
    ensures
        r.deep_view() == move_of_line(line@),
{
    if line.len() == 0 || line[0] != 'R' {
        return None;
    }
    let fields = split_chars(line, '\t');
    if fields.len() != 3 {
        return None;
    }
    assert(fields.deep_view()[0] == fields[0]@);
    assert(fields.deep_view()[1] == fields[1]@);
    assert(fields.deep_view()[2] == fields[2]@);
    let suffix = to_chars(".baum/manifest.yaml");
    if !has_suffix(&fields[1], &suffix) {
        return None;
    }
    proof {
        lemma_split_first_field(line@);
    }
    let old_path = strip_descriptor(&fields[1]);
    let new_path = strip_descriptor(&fields[2]);
    let similarity = parse_similarity(&fields[0]);
    Some(
        MoveEntry { old_path: from_chars(&old_path), new_path: from_chars(&new_path), similarity },
    )
}

/// The first field of a line that starts with `R` is not empty.
proof fn lemma_split_first_field(line: Seq<char>)
    requires
        line.len() > 0,
        line[0] != '\t',
    ensures
        split(line, '\t')[0].len() > 0,
    decreases line.len(),
{
    lemma_split_len(line.drop_last(), '\t');
    if line.len() > 1 {
        lemma_split_first_field(line.drop_last());
    } else {
        assert(line.drop_last() == Seq::<char>::empty());
    }
}

/// Reads the moves of containers from the output of the rename detection.
pub fn parse_move_output(output: &str) -> (moves: Vec<MoveEntry>)
    ensures
        moves.deep_view() == parsed_moves(output@),
{
    let text = to_chars(output);
    let all = lines_chars(&text);
    let mut moves: Vec<MoveEntry> = Vec::new();
    let mut i: usize = 0;
    let ghost ls = lines(output@);
    assert(ls.take(0) == Seq::<Seq<char>>::empty());
    assert(moves.deep_view() == Seq::<MoveEntryView>::empty());
    while i < all.len()
        invariant
            i <= all.len(),
            all.deep_view() == ls,
            moves.deep_view() == moves_of(ls.take(i as int)),
        decreases all.len() - i,
    {
        assert(ls.take(i + 1).drop_last() == ls.take(i as int));
        assert(ls.take(i + 1).last() == all[i as int]@);
        if let Some(m) = parse_move_line(&all[i]) {
            let ghost before = moves.deep_view();
            moves.push(m);
            assert(moves.deep_view() == before.push(m@));
        }
        i += 1;
    }
    assert(ls.take(ls.len() as int) == ls);
    moves
}

/// The arguments of the `git` run that detects renames between two commits
/// of the repository at `repo_path`.
pub fn detect_moves_args(repo_path: &str, from_commit: &str, to_commit: &str) -> (args: Vec<String>)
    ensures
        args.deep_view() == seq![
            "-C"@,
            repo_path@,
            "diff"@,
            "-M"@,
            "--name-status"@,
            "--first-parent"@,
            "--diff-filter=R"@,
            from_commit@ + ".."@ + to_commit@,
        ],
{
    let mut range = to_chars(from_commit);
    let dots = to_chars("..");
    crate::text::push_all(&mut range, &dots);
    let to = to_chars(to_commit);
    crate::text::push_all(&mut range, &to);
    let mut args: Vec<String> = Vec::new();
    args.push("-C".to_owned());
    args.push(repo_path.to_owned());
    args.push("diff".to_owned());
    args.push("-M".to_owned());
    args.push("--name-status".to_owned());
    args.push("--first-parent".to_owned());
    args.push("--diff-filter=R".to_owned());
    args.push(from_chars(&range));
    assert(args.deep_view() == seq![
        "-C"@,
        repo_path@,
        "diff"@,
        "-M"@,
        "--name-status"@,
        "--first-parent"@,
        "--diff-filter=R"@,
        from_commit@ + ".."@ + to_commit@,
    ]);
    args
}

/// The moves of containers that a run of the rename detection found. A run
/// that failed found none.
pub fn detect_moves(run: &GitOutput) -> (moves: Vec<MoveEntry>)
    ensures
        moves.deep_view() == if run@.success {
            parsed_moves(run@.stdout)
        } else {
            Seq::<MoveEntryView>::empty()
        },
{
    if !run.success {
        let moves: Vec<MoveEntry> = Vec::new();
        assert(moves.deep_view() == Seq::<MoveEntryView>::empty());
        return moves;
    }
    parse_move_output(run.stdout.as_str())
}

} // verus!
