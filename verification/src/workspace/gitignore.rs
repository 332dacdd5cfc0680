//! The ignore files that the workspace manages.
//!
//! The `.gitignore` at the workspace root carries a section between two
//! markers that lists what the outer repository must not track. The section
//! heals itself: where the file does not hold it whole, marker lines and
//! pattern lines one after the other, it is written anew, and everything
//! outside it stays as it is. The `.gitignore` of a container
//! lists the worktree directories of the baum, one per line.

use vstd::prelude::*;
use crate::failure::ErrorKind;
use crate::flow::{
    agrees, ask_done, ask_text, done_step, text_step, Outcome, Progress, Replies, Reply, Request,
    RequestView,
};
use crate::paths::{join_path, joined};
use crate::split::{
    has_char, lemma_split_append, lemma_split_len, lemma_split_single, lines, lines_chars, split,
    strip_cr, trim, trim_chars,
};
use crate::text::{
    append_str, chars_eq, contains, contains_sub, find_char, find_from, find_first,
    first_index_of, from_chars, last_index_of, lemma_find_first, occurs_at, push_all, rfind_char,
    subvec, to_chars,
};

verus! {

broadcast use crate::text::lemma_deep_view_chars;

/// The line that opens the managed section.
pub open spec fn marker_start() -> Seq<char> {
    "# wald:start (managed by wald, do not edit)"@
}

/// The line that closes the managed section.
pub open spec fn marker_end() -> Seq<char> {
    "# wald:end"@
}

/// The patterns that the managed section holds, in order.
pub open spec fn required_patterns() -> Seq<Seq<char>> {
    seq![
        ".wald/repos/"@,
        ".wald/state.yaml"@,
        "**/.baum/manifest.local.yaml"@,
        "**/_*.wt/"@,
    ]
}

/// A line feed.
pub open spec fn newline() -> Seq<char> {
    seq!['\n']
}

/// The lines of the managed section: the opening marker, the patterns and
/// the closing marker.
pub open spec fn section_lines() -> Seq<Seq<char>> {
    seq![
        marker_start(),
        required_patterns()[0],
        required_patterns()[1],
        required_patterns()[2],
        required_patterns()[3],
        marker_end(),
    ]
}

/// The lines one after the other, each closed by a line feed.
pub open spec fn unlines(all: Seq<Seq<char>>) -> Seq<char>
    decreases all.len(),
{
    if all.len() == 0 {
        Seq::<char>::empty()
    } else {
        unlines(all.drop_last()) + all.last() + newline()
    }
}

/// The managed section as it is written.
pub open spec fn managed_section() -> Seq<char> {
    unlines(section_lines())
}

/// Whether the text holds the managed section whole: the line of the
/// opening marker, the lines of the patterns in their order and the line of
/// the closing marker, one after the other. Patterns that stand elsewhere in
/// the text do not count.
pub open spec fn is_complete(content: Seq<char>) -> bool {
    contains_sub(content, managed_section())
}

/// The text without its managed section: without the lines from the one
/// that holds the opening marker to the one that holds the closing marker.
/// A text in which the opening marker does not come first is left alone.
pub open spec fn without_section(content: Seq<char>) -> Seq<char> {
    match (find_first(content, marker_start(), 0), find_first(content, marker_end(), 0)) {
        (Some(start), Some(end)) => if start < end {
            let stop = match first_index_of(content, '\n', end) {
                Some(i) => i + 1,
                None => content.len() as int,
            };
            let begin = match last_index_of(content, '\n', start) {
                Some(i) => i + 1,
                None => 0,
            };
            content.subrange(0, begin) + content.subrange(stop, content.len() as int)
        } else {
            content
        },
        _ => content,
    }
}

/// The text with its managed section replaced by a fresh one at the end.
pub open spec fn with_section(content: Seq<char>) -> Seq<char> {
    let rest = without_section(content);
    if rest.len() == 0 {
        managed_section()
    } else if rest.last() == '\n' {
        rest + newline() + managed_section()
    } else {
        rest + newline() + newline() + managed_section()
    }
}

/// The text after the managed section has been ensured: a complete text
/// stays, any other gets a fresh section.
pub open spec fn ensured(content: Seq<char>) -> Seq<char> {
    if is_complete(content) {
        content
    } else {
        with_section(content)
    }
}

proof fn lemma_sub_after(a: Seq<char>, s: Seq<char>, p: Seq<char>)
    requires
        contains_sub(s, p),
    ensures
        contains_sub(a + s, p),
{
    let i = choose|i: int| occurs_at(s, p, i);
    assert((a + s).subrange(a.len() + i, a.len() + i + p.len()) == s.subrange(i, i + p.len()));
    assert(occurs_at(a + s, p, a.len() + i));
}

proof fn lemma_sub_self(p: Seq<char>)
    ensures
        contains_sub(p, p),
{
    assert(p.subrange(0, p.len() as int) == p);
    assert(occurs_at(p, p, 0));
}

/// A fresh section makes any text complete.
pub proof fn lemma_with_section_complete(content: Seq<char>)
    ensures
        with_section(content) == lead_of(content) + managed_section(),
        is_complete(with_section(content)),
{
    let whole = with_section(content);
    assert(whole == lead_of(content) + managed_section());
    lemma_sub_self(managed_section());
    lemma_sub_after(lead_of(content), managed_section(), managed_section());
}

/// The characters of the opening marker.
proof fn lemma_marker_chars()
    ensures
        marker_start() == seq!['#', ' ', 'w', 'a', 'l', 'd', ':', 's', 't', 'a', 'r', 't', ' ', '(', 'm', 'a', 'n', 'a', 'g', 'e', 'd', ' ', 'b', 'y', ' ', 'w', 'a', 'l', 'd', ',', ' ', 'd', 'o', ' ', 'n', 'o', 't', ' ', 'e', 'd', 'i', 't', ')'],
        marker_start().len() == 43,
        marker_start()[0] == '#',
        forall|i: int| 0 <= i < 43 ==> #[trigger] marker_start()[i] != '\n',
        forall|i: int| 1 <= i < 43 ==> #[trigger] marker_start()[i] != '#',
{
    reveal_strlit("# wald:start (managed by wald, do not edit)");
    let s = seq!['#', ' ', 'w', 'a', 'l', 'd', ':', 's', 't', 'a', 'r', 't', ' ', '(', 'm', 'a', 'n', 'a', 'g', 'e', 'd', ' ', 'b', 'y', ' ', 'w', 'a', 'l', 'd', ',', ' ', 'd', 'o', ' ', 'n', 'o', 't', ' ', 'e', 'd', 'i', 't', ')'];
    assert(marker_start() =~= s);
    assert forall|i: int| 0 <= i < 43 implies #[trigger] s[i] != '\n' by {}
    assert forall|i: int| 1 <= i < 43 implies #[trigger] s[i] != '#' by {}
}

/// The first three patterns hold no `#`.
proof fn lemma_pattern_chars()
    ensures
        required_patterns()[0].len() == 12,
        required_patterns()[1].len() == 16,
        required_patterns()[2].len() == 28,
        forall|i: int| 0 <= i < 12 ==> #[trigger] required_patterns()[0][i] != '#',
        forall|i: int| 0 <= i < 16 ==> #[trigger] required_patterns()[1][i] != '#',
        forall|i: int| 0 <= i < 28 ==> #[trigger] required_patterns()[2][i] != '#',
{
    reveal_strlit(".wald/repos/");
    reveal_strlit(".wald/state.yaml");
    reveal_strlit("**/.baum/manifest.local.yaml");
    let a = seq!['.', 'w', 'a', 'l', 'd', '/', 'r', 'e', 'p', 'o', 's', '/'];
    let b = seq!['.', 'w', 'a', 'l', 'd', '/', 's', 't', 'a', 't', 'e', '.', 'y', 'a', 'm', 'l'];
    let c = seq!['*', '*', '/', '.', 'b', 'a', 'u', 'm', '/', 'm', 'a', 'n', 'i', 'f', 'e', 's', 't', '.', 'l', 'o', 'c', 'a', 'l', '.', 'y', 'a', 'm', 'l'];
    assert(required_patterns()[0] =~= a);
    assert(required_patterns()[1] =~= b);
    assert(required_patterns()[2] =~= c);
    assert forall|i: int| 0 <= i < 12 implies #[trigger] a[i] != '#' by {}
    assert forall|i: int| 0 <= i < 16 implies #[trigger] b[i] != '#' by {}
    assert forall|i: int| 0 <= i < 28 implies #[trigger] c[i] != '#' by {}
}

/// The managed section as one text, and its length.
proof fn lemma_section_shape()
    ensures
        managed_section() == marker_start() + newline() + required_patterns()[0] + newline()
            + required_patterns()[1] + newline() + required_patterns()[2] + newline()
            + required_patterns()[3] + newline() + marker_end() + newline(),
        managed_section().len() == 124,
{
    reveal_strlit("# wald:start (managed by wald, do not edit)");
    reveal_strlit("# wald:end");
    reveal_strlit(".wald/repos/");
    reveal_strlit(".wald/state.yaml");
    reveal_strlit("**/.baum/manifest.local.yaml");
    reveal_strlit("**/_*.wt/");
    let all = section_lines();
    let n = newline();
    assert(all.take(0) == Seq::<Seq<char>>::empty());
    assert(unlines(all.take(0)) == Seq::<char>::empty());
    assert(all.take(1).drop_last() == all.take(0));
    assert(unlines(all.take(1)) == all[0] + n);
    assert(all.take(2).drop_last() == all.take(1));
    assert(unlines(all.take(2)) == all[0] + n + all[1] + n);
    assert(all.take(3).drop_last() == all.take(2));
    assert(unlines(all.take(3)) == all[0] + n + all[1] + n + all[2] + n);
    assert(all.take(4).drop_last() == all.take(3));
    assert(unlines(all.take(4)) == all[0] + n + all[1] + n + all[2] + n + all[3] + n);
    assert(all.take(5).drop_last() == all.take(4));
    assert(unlines(all.take(5)) == all[0] + n + all[1] + n + all[2] + n + all[3] + n + all[4]
        + n);
    assert(all.take(6) == all);
    assert(all.drop_last() == all.take(5));
}

/// In the managed section the opening marker stands at the start and
/// nowhere else.
proof fn lemma_marker_once_in_section(k: int)
    requires
        occurs_at(managed_section(), marker_start(), k),
    ensures
        k == 0,
{
    lemma_marker_chars();
    lemma_section_shape();
    let m = managed_section();
    if k != 0 {
        assert(1 <= k <= 81);
        assert(m.subrange(k, k + 43)[0] == marker_start()[0]);
        assert(m[k] == '#');
        lemma_no_hash_early(k);
    }
}

/// The text that leads up to the fresh section: the rest of the old text,
/// closed by an empty line.
pub open spec fn lead_of(content: Seq<char>) -> Seq<char> {
    let rest = without_section(content);
    if rest.len() == 0 {
        rest
    } else if rest.last() == '\n' {
        rest + newline()
    } else {
        rest + newline() + newline()
    }
}

/// The characters of the closing marker.
proof fn lemma_end_chars()
    ensures
        marker_end() == seq!['#', ' ', 'w', 'a', 'l', 'd', ':', 'e', 'n', 'd'],
        marker_end().len() == 10,
        forall|i: int| 0 <= i < 10 ==> #[trigger] marker_end()[i] != '\n',
{
    reveal_strlit("# wald:end");
    let s = seq!['#', ' ', 'w', 'a', 'l', 'd', ':', 'e', 'n', 'd'];
    assert(marker_end() =~= s);
    assert forall|i: int| 0 <= i < 10 implies #[trigger] s[i] != '\n' by {}
}

/// Where the closing marker stands in the managed section.
pub open spec fn end_offset() -> int {
    managed_section().len() - marker_end().len() - 1
}

/// Before its last pattern the managed section holds `#` at its start
/// only.
proof fn lemma_no_hash_early(k: int)
    requires
        1 <= k < 102,
    ensures
        managed_section()[k] != '#',
{
    lemma_marker_chars();
    lemma_pattern_chars();
    lemma_section_shape();
    let m = managed_section();
    let s = marker_start();
    let p = required_patterns();
    let a = s + newline();
    let b = a + p[0] + newline();
    let c = b + p[1] + newline();
    let d = c + p[2];
    assert(a.len() == 44 && b.len() == 57 && c.len() == 74 && d.len() == 102);
    assert(m == d + (newline() + p[3] + newline() + marker_end() + newline()));
    assert(m[k] == d[k]);
    if k < 43 {
        assert(d[k] == s[k]);
    } else if k == 43 {
        assert(d[k] == '\n');
    } else if k < 56 {
        assert(d[k] == p[0][k - 44]);
    } else if k == 56 {
        assert(d[k] == '\n');
    } else if k < 73 {
        assert(d[k] == p[1][k - 57]);
    } else if k == 73 {
        assert(d[k] == '\n');
    } else {
        assert(d[k] == p[2][k - 74]);
    }
}

/// The last pattern line of the managed section holds no `#`.
proof fn lemma_no_hash_late(k: int)
    requires
        102 <= k < 113,
    ensures
        managed_section()[k] != '#',
{
    lemma_section_shape();
    lemma_marker_chars();
    lemma_pattern_chars();
    reveal_strlit("**/_*.wt/");
    let m = managed_section();
    let p = required_patterns();
    let head = marker_start() + newline() + p[0] + newline() + p[1] + newline() + p[2];
    let line = newline() + seq!['*', '*', '/', '_', '*', '.', 'w', 't', '/'] + newline();
    assert(p[3] =~= seq!['*', '*', '/', '_', '*', '.', 'w', 't', '/']);
    assert(line =~= seq!['\n', '*', '*', '/', '_', '*', '.', 'w', 't', '/', '\n']);
    assert(m == head + line + (marker_end() + newline()));
    assert(head.len() == 102);
    assert(m[k] == line[k - 102]);
}

/// The markers stand in the managed section where its first and its last
/// line start.
proof fn lemma_markers_in_section()
    ensures
        occurs_at(managed_section(), marker_start(), 0),
        occurs_at(managed_section(), marker_end(), end_offset()),
        end_offset() == 113,
{
    lemma_marker_chars();
    lemma_end_chars();
    lemma_section_shape();
    let m = managed_section();
    assert(m.subrange(0, 43) == marker_start());
    assert(m.subrange(113, 123) == marker_end());
}

/// Three facts on the managed section: its length, and two characters that
/// tell its markers apart.
proof fn lemma_section_points()
    ensures
        managed_section().len() == 124,
        end_offset() == 113,
        managed_section()[7] == 's',
        managed_section()[114] == ' ',
{
    lemma_markers_in_section();
    lemma_marker_chars();
    lemma_end_chars();
    lemma_section_shape();
    let m = managed_section();
    assert(m.subrange(0, 43)[7] == m[7]);
    assert(m.subrange(113, 123)[1] == m[114]);
}

/// In the managed section the closing marker stands in the last line and
/// nowhere else.
proof fn lemma_end_once_in_section(k: int)
    requires
        occurs_at(managed_section(), marker_end(), k),
    ensures
        k == end_offset(),
{
    lemma_end_chars();
    lemma_section_points();
    let m = managed_section();
    let e = marker_end();
    let found = m.subrange(k, k + 10);
    assert(found[0] == m[k] && found[7] == m[k + 7]);
    assert(m[k] == '#' && m[k + 7] == 'e');
    if 1 <= k < 102 {
        lemma_no_hash_early(k);
    } else if 102 <= k < 113 {
        lemma_no_hash_late(k);
    }
}

proof fn lemma_occurs_within(t: Seq<char>, m: Seq<char>, p: Seq<char>, k: int, o: int)
    requires
        occurs_at(t, m, k),
        occurs_at(m, p, o),
    ensures
        occurs_at(t, p, k + o),
{
    assert(t.subrange(k + o, k + o + p.len()) == t.subrange(k, k + m.len()).subrange(
        o,
        o + p.len(),
    ));
}

/// A line-free text that occurs where whole lines were cut out occurred
/// before the cut or after it.
proof fn lemma_occurs_in_cut(content: Seq<char>, p: Seq<char>, begin: int, stop: int, j: int)
    requires
        0 <= begin <= stop <= content.len(),
        begin == 0 || content[begin - 1] == '\n',
        p.len() > 0,
        forall|i: int| 0 <= i < p.len() ==> #[trigger] p[i] != '\n',
        occurs_at(
            content.subrange(0, begin) + content.subrange(stop, content.len() as int),
            p,
            j,
        ),
    ensures
        (j + p.len() <= begin && occurs_at(content, p, j)) || (j >= begin && occurs_at(
            content,
            p,
            j - begin + stop,
        )),
{
    let rest = content.subrange(0, begin) + content.subrange(stop, content.len() as int);
    let found = rest.subrange(j, j + p.len());
    if j + p.len() <= begin {
        assert(content.subrange(j, j + p.len()) == found);
    } else if j >= begin {
        assert(content.subrange(j - begin + stop, j - begin + stop + p.len()) == found);
    } else {
        assert(found[begin - 1 - j] == rest[begin - 1]);
        assert(rest[begin - 1] == content[begin - 1]);
        assert(p[begin - 1 - j] == '\n');
    }
}

proof fn lemma_last_index(s: Seq<char>, c: char, before: int)
    requires
        0 <= before <= s.len(),
    ensures
        match last_index_of(s, c, before) {
            Some(i) => 0 <= i < before && s[i] == c,
            None => true,
        },
    decreases before,
{
    if before > 0 && s[before - 1] != c {
        lemma_last_index(s, c, before - 1);
    }
}

proof fn lemma_first_index(s: Seq<char>, c: char, from: int)
    requires
        0 <= from,
    ensures
        match first_index_of(s, c, from) {
            Some(i) => from <= i < s.len() && s[i] == c,
            None => true,
        },
    decreases s.len() - from,
{
    if from < s.len() && s[from] != c {
        lemma_first_index(s, c, from + 1);
    }
}

/// Whether `p` occurs in `text` at `at` and nowhere else.
pub open spec fn only_at(text: Seq<char>, p: Seq<char>, at: int) -> bool {
    forall|j: int| occurs_at(text, p, j) <==> j == at
}

/// Whether a text holds one managed section at most: no marker at all, or
/// one opening marker and, somewhere after it, one closing marker.
pub open spec fn one_section_at_most(content: Seq<char>) -> bool {
    ||| (!contains_sub(content, marker_start()) && !contains_sub(content, marker_end()))
    ||| exists|s: int, e: int|
        s < e && #[trigger] only_at(content, marker_start(), s) && #[trigger] only_at(
            content,
            marker_end(),
            e,
        )
}

/// Whether a text holds exactly one managed section, and that one whole:
/// the section as it is written stands at `at`, its opening marker is the
/// only opening marker of the text, and its closing marker the only closing
/// marker.
pub open spec fn one_whole_section(text: Seq<char>, at: int) -> bool {
    &&& occurs_at(text, managed_section(), at)
    &&& only_at(text, marker_start(), at)
    &&& only_at(text, marker_end(), at + end_offset())
}

/// What is left of a text with one section at most, once the section is
/// cut out, holds no marker.
proof fn lemma_rest_has_no_marker(content: Seq<char>)
    requires
        one_section_at_most(content),
    ensures
        !contains_sub(without_section(content), marker_start()),
        !contains_sub(without_section(content), marker_end()),
{
    lemma_marker_chars();
    lemma_end_chars();
    lemma_find_first(content, marker_start(), 0);
    lemma_find_first(content, marker_end(), 0);
    let rest = without_section(content);
    if contains_sub(content, marker_start()) || contains_sub(content, marker_end()) {
        let (s, e) = choose|s: int, e: int|
            s < e && #[trigger] only_at(content, marker_start(), s) && #[trigger] only_at(
                content,
                marker_end(),
                e,
            );
        assert(occurs_at(content, marker_start(), s));
        assert(occurs_at(content, marker_end(), e));
        assert(find_first(content, marker_start(), 0) == Some(s));
        assert(find_first(content, marker_end(), 0) == Some(e));
        lemma_first_index(content, '\n', e);
        lemma_last_index(content, '\n', s);
        let stop = match first_index_of(content, '\n', e) {
            Some(i) => i + 1,
            None => content.len() as int,
        };
        let begin = match last_index_of(content, '\n', s) {
            Some(i) => i + 1,
            None => 0,
        };
        assert(rest == content.subrange(0, begin) + content.subrange(stop, content.len() as int));
        assert(begin <= s < e < stop <= content.len());
        if contains_sub(rest, marker_start()) {
            let j = choose|j: int| occurs_at(rest, marker_start(), j);
            lemma_occurs_in_cut(content, marker_start(), begin, stop, j);
        }
        if contains_sub(rest, marker_end()) {
            let j = choose|j: int| occurs_at(rest, marker_end(), j);
            lemma_occurs_in_cut(content, marker_end(), begin, stop, j);
        }
    } else {
        assert(rest == content);
    }
}

/// A line-free text occurs in a lead and a section after it only inside the
/// lead without its last line feed, or inside the section.
proof fn lemma_occurs_in_whole(rest: Seq<char>, lead: Seq<char>, p: Seq<char>, j: int)
    requires
        lead == rest || lead == rest + newline() || lead == rest + newline() + newline(),
        lead.len() == 0 || lead.last() == '\n',
        rest.len() > 0 ==> lead.len() > rest.len(),
        p.len() > 0,
        forall|i: int| 0 <= i < p.len() ==> #[trigger] p[i] != '\n',
        occurs_at(lead + managed_section(), p, j),
    ensures
        occurs_at(rest, p, j) || (j >= lead.len() && occurs_at(
            managed_section(),
            p,
            j - lead.len(),
        )),
{
    let whole = lead + managed_section();
    let found = whole.subrange(j, j + p.len());
    let l = lead.len() as int;
    if j >= l {
        assert(managed_section().subrange(j - l, j - l + p.len()) == found);
    } else if j + p.len() <= rest.len() {
        assert(rest.subrange(j, j + p.len()) == found);
    } else {
        let k = if j >= rest.len() {
            j
        } else {
            rest.len() as int
        };
        assert(rest.len() <= k < l);
        assert(whole[k] == '\n');
        assert(found[k - j] == whole[k]);
        assert(p[k - j] == '\n');
    }
}

/// After the section has been ensured, once or twice, a text that held one
/// section at most holds exactly one, whole: the opening marker line, the
/// four pattern lines and the closing marker line, and no other marker
/// anywhere.
pub proof fn lemma_one_whole_section(content: Seq<char>)
    requires
        one_section_at_most(content),
    ensures
        exists|at: int| one_whole_section(ensured(content), at),
        exists|at: int| one_whole_section(ensured(ensured(content)), at),
{
    lemma_ensure_idempotent(content);
    lemma_markers_in_section();
    lemma_marker_chars();
    lemma_end_chars();
    let m = managed_section();
    if is_complete(content) {
        let at = choose|at: int| occurs_at(content, m, at);
        lemma_occurs_within(content, m, marker_start(), at, 0);
        lemma_occurs_within(content, m, marker_end(), at, end_offset());
        let (s, e) = choose|s: int, e: int|
            s < e && #[trigger] only_at(content, marker_start(), s) && #[trigger] only_at(
                content,
                marker_end(),
                e,
            );
        assert(s == at && e == at + end_offset());
        assert(one_whole_section(ensured(content), at));
    } else {
        lemma_with_section_complete(content);
        lemma_rest_has_no_marker(content);
        let rest = without_section(content);
        let lead = lead_of(content);
        let whole = with_section(content);
        let at = lead.len() as int;
        assert(occurs_at(whole, m, at)) by {
            assert(whole.subrange(at, at + m.len()) == m);
        }
        lemma_occurs_within(whole, m, marker_start(), at, 0);
        lemma_occurs_within(whole, m, marker_end(), at, end_offset());
        assert forall|j: int| occurs_at(whole, marker_start(), j) implies j == at by {
            lemma_occurs_in_whole(rest, lead, marker_start(), j);
            lemma_marker_once_in_section(j - at);
        }
        assert forall|j: int| occurs_at(whole, marker_end(), j) implies j == at + end_offset() by {
            lemma_occurs_in_whole(rest, lead, marker_end(), j);
            lemma_end_once_in_section(j - at);
        }
        assert(one_whole_section(ensured(content), at));
    }
}

/// Ensuring the section twice is ensuring it once: after the first time the
/// text holds the managed section whole, and the second time changes
/// nothing.
pub proof fn lemma_ensure_idempotent(content: Seq<char>)
    ensures
        is_complete(ensured(content)),
        ensured(ensured(content)) == ensured(content),
{
    lemma_with_section_complete(content);
}

/// The pattern that ignores a worktree directory of a container.
pub open spec fn ignore_pattern(worktree_path: Seq<char>) -> Seq<char> {
    seq!['/'] + worktree_path
}

/// Whether some line of the text, trimmed, is the pattern.
pub open spec fn lists_pattern(content: Seq<char>, pattern: Seq<char>) -> bool {
    exists|i: int| 0 <= i < lines(content).len() && trim(#[trigger] lines(content)[i]) == pattern
}

/// The text with the pattern on a new line at its end.
pub open spec fn with_pattern(content: Seq<char>, pattern: Seq<char>) -> Seq<char> {
    if content.len() == 0 {
        pattern + newline()
    } else if content.last() == '\n' {
        content + pattern + newline()
    } else {
        content + newline() + pattern + newline()
    }
}

/// The text after the pattern has been ensured.
pub open spec fn listing(content: Seq<char>, pattern: Seq<char>) -> Seq<char> {
    if lists_pattern(content, pattern) {
        content
    } else {
        with_pattern(content, pattern)
    }
}

/// A pattern that has been added is listed, so that adding it again changes
/// nothing. This holds of every pattern that is a single trimmed line.
pub proof fn lemma_pattern_listed(content: Seq<char>, pattern: Seq<char>)
    requires
        !has_char(pattern, '\n'),
        trim(pattern) == pattern,
    ensures
        lists_pattern(with_pattern(content, pattern), pattern),
        listing(listing(content, pattern), pattern) == listing(content, pattern),
{
    let whole = with_pattern(content, pattern);
    let body = if content.len() == 0 {
        pattern
    } else if content.last() == '\n' {
        content + pattern
    } else {
        content + newline() + pattern
    };
    assert(whole == body + newline());
    assert(whole.drop_last() == body);
    assert(whole.last() == '\n');
    let pieces = split(whole, '\n');
    let before = split(body, '\n');
    lemma_split_len(body, '\n');
    assert(pieces == before.push(Seq::<char>::empty()));
    assert(before.last() == pattern) by {
        if content.len() == 0 {
            lemma_split_single(pattern, '\n');
        } else if content.last() == '\n' {
            let init = content.drop_last();
            assert(content + pattern == init + seq!['\n'] + pattern);
            lemma_split_append(init, pattern, '\n');
        } else {
            lemma_split_append(content, pattern, '\n');
        }
    }
    assert(pieces.drop_last() == before);
    let closed = before.map_values(|p: Seq<char>| strip_cr(p));
    assert(lines(whole) == closed);
    let k = before.len() - 1;
    assert(closed[k] == strip_cr(pattern));
    assert(strip_cr(pattern) == pattern) by {
        if pattern.len() > 0 && pattern.last() == '\r' {
            crate::split::lemma_trim_edges(pattern);
        }
    }
    assert(trim(lines(whole)[k]) == pattern);
}

/// Removes the managed section from the text of an ignore file, markers
/// included.
pub fn remove_wald_section(content: &str) -> (out: String)
    ensures
        out@ == without_section(content@),
{
    let text = to_chars(content);
    let open = to_chars("# wald:start (managed by wald, do not edit)");
    let close = to_chars("# wald:end");
    let start = find_from(&text, &open, 0);
    let end = find_from(&text, &close, 0);
    match (start, end) {
        (Some(start), Some(end)) => {
            if start < end {
                let stop: usize = match find_char(&text, '\n', end) {
                    Some(i) => i + 1,
                    None => text.len(),
                };
                let begin: usize = match rfind_char(&text, '\n', start) {
                    Some(i) => i + 1,
                    None => 0,
                };
                let mut out = subvec(&text, 0, begin);
                let tail = subvec(&text, stop, text.len());
                push_all(&mut out, &tail);
                from_chars(&out)
            } else {
                from_chars(&text)
            }
        },
        _ => from_chars(&text),
    }
}

fn push_section(out: &mut Vec<char>)
    ensures
        final(out)@ == old(out)@ + managed_section(),
{
    let ghost lead = out@;
    let section: Vec<&str> = vec![
        "# wald:start (managed by wald, do not edit)",
        ".wald/repos/",
        ".wald/state.yaml",
        "**/.baum/manifest.local.yaml",
        "**/_*.wt/",
        "# wald:end",
    ];
    assert(section.deep_view() == section_lines());
    let mut i: usize = 0;
    assert(section_lines().take(0) == Seq::<Seq<char>>::empty());
    assert(out@ == lead + unlines(section_lines().take(0)));
    while i < section.len()
        invariant
            i <= section.len(),
            section.deep_view() == section_lines(),
            out@ == lead + unlines(section_lines().take(i as int)),
        decreases section.len() - i,
    {
        assert(section_lines().take(i + 1).drop_last() == section_lines().take(i as int));
        assert(section_lines().take(i + 1).last() == section[i as int]@);
        append_str(out, section[i]);
        out.push('\n');
        assert(out@ == lead + (unlines(section_lines().take(i as int)) + section[i as int]@
            + newline()));
        i += 1;
    }
    assert(section_lines().take(6) == section_lines());
}

fn holds_section(text: &Vec<char>) -> (r: bool)
    ensures
        r == is_complete(text@),
{
    let mut section: Vec<char> = Vec::new();
    push_section(&mut section);
    assert(section@ == managed_section());
    contains(text, &section)
}

/// The new text of the workspace's ignore file, where it needs one: nothing
/// for a text that holds the managed section whole, and else the text with
/// its section replaced by a fresh one at the end.
pub fn ensure_section_content(content: &str) -> (out: Option<String>)
    ensures
        match out {
            None => is_complete(content@),
            Some(text) => !is_complete(content@) && text@ == with_section(content@),
        },
{
    let text = to_chars(content);
    if holds_section(&text) {
        return None;
    }
    let rest = remove_wald_section(content);
    let mut out = to_chars(rest.as_str());
    let n = out.len();
    if n > 0 {
        out.push('\n');
        if out[n - 1] != '\n' {
            out.push('\n');
        }
    }
    push_section(&mut out);
    assert(out@ == with_section(content@));
    Some(from_chars(&out))
}

/// The new text of a container's ignore file, where it needs one: nothing
/// where a line already is `/<worktree_path>`, and else the text with that
/// line at its end.
pub fn add_pattern_content(content: &str, worktree_path: &str) -> (out: Option<String>)
    ensures
        match out {
            None => lists_pattern(content@, ignore_pattern(worktree_path@)),
            Some(text) => !lists_pattern(content@, ignore_pattern(worktree_path@)) && text@
                == with_pattern(content@, ignore_pattern(worktree_path@)),
        },
{
    let mut pattern: Vec<char> = Vec::new();
    pattern.push('/');
    append_str(&mut pattern, worktree_path);
    let text = to_chars(content);
    let all = lines_chars(&text);
    let mut i: usize = 0;
    while i < all.len()
        invariant
            i <= all.len(),
            all.deep_view() == lines(content@),
            pattern@ == ignore_pattern(worktree_path@),
            forall|j: int| 0 <= j < i ==> trim(#[trigger] lines(content@)[j]) != pattern@,
        decreases all.len() - i,
    {
        let t = trim_chars(&all[i]);
        assert(all.deep_view()[i as int] == all[i as int]@);
        if chars_eq(&t, &pattern) {
            assert(trim(lines(content@)[i as int]) == pattern@);
            return None;
        }
        i += 1;
    }
    let mut out = to_chars(content);
    let n = out.len();
    if n > 0 && out[n - 1] != '\n' {
        out.push('\n');
    }
    push_all(&mut out, &pattern);
    out.push('\n');
    assert(out@ == with_pattern(content@, pattern@));
    Some(from_chars(&out))
}

/// Ensuring the managed section of the workspace at `root`: the ignore file
/// is read, and written where its text does not hold the managed section
/// whole.
pub open spec fn ensure_gitignore_flow(root: Seq<char>, replies: Replies, pos: int) -> Outcome<()> {
    let path = joined(root, ".gitignore"@);
    match text_step(replies, pos, path, "failed to read .gitignore"@) {
        Outcome::Done(content, next) => if is_complete(content) {
            Outcome::Done((), next)
        } else {
            done_step(
                replies,
                next,
                RequestView::WriteText(path, with_section(content)),
                ErrorKind::Filesystem,
                "failed to write .gitignore"@,
            )
        },
        Outcome::Ask(q) => Outcome::Ask(q),
        Outcome::Failed(f) => Outcome::Failed(f),
    }
}

/// Ensures that the ignore file at the workspace root has the managed
/// section.
pub fn ensure_gitignore_section(workspace_root: &str, replies: &Vec<Reply>, pos: &mut usize) -> (r:
    Progress<()>)
    ensures
        agrees(
            r,
            *final(pos),
            ensure_gitignore_flow(workspace_root@, replies.deep_view(), *old(pos) as int),
        ),
{
    let path = join_path(workspace_root, ".gitignore");
    let content = match ask_text(replies, pos, path.as_str(), "failed to read .gitignore") {
        Progress::Done(t) => t,
        Progress::Ask(q) => {
            return Progress::Ask(q);
        },
        Progress::Failed(f) => {
            return Progress::Failed(f);
        },
    };
    match ensure_section_content(content.as_str()) {
        None => Progress::Done(()),
        Some(text) => ask_done(
            replies,
            pos,
            Request::WriteText(path, text),
            ErrorKind::Filesystem,
            "failed to write .gitignore",
        ),
    }
}

/// Listing a worktree directory in the ignore file of its container: the
/// file is read, and written where no line is the pattern yet.
pub open spec fn add_to_gitignore_flow(
    container: Seq<char>,
    worktree_path: Seq<char>,
    replies: Replies,
    pos: int,
) -> Outcome<()> {
    let path = joined(container, ".gitignore"@);
    let pattern = ignore_pattern(worktree_path);
    match text_step(replies, pos, path, "failed to read .gitignore"@) {
        Outcome::Done(content, next) => if lists_pattern(content, pattern) {
            Outcome::Done((), next)
        } else {
            done_step(
                replies,
                next,
                RequestView::WriteText(path, with_pattern(content, pattern)),
                ErrorKind::Filesystem,
                "failed to write .gitignore"@,
            )
        },
        Outcome::Ask(q) => Outcome::Ask(q),
        Outcome::Failed(f) => Outcome::Failed(f),
    }
}

/// Lists a worktree directory in the ignore file of its container.
pub fn add_worktree_to_gitignore(
    container: &str,
    worktree_path: &str,
    replies: &Vec<Reply>,
    pos: &mut usize,
) -> (r: Progress<()>)
    ensures
        agrees(
            r,
            *final(pos),
            add_to_gitignore_flow(
                container@,
                worktree_path@,
                replies.deep_view(),
                *old(pos) as int,
            ),
        ),
{
    let path = join_path(container, ".gitignore");
    let content = match ask_text(replies, pos, path.as_str(), "failed to read .gitignore") {
        Progress::Done(t) => t,
        Progress::Ask(q) => {
            return Progress::Ask(q);
        },
        Progress::Failed(f) => {
            return Progress::Failed(f);
        },
    };
    match add_pattern_content(content.as_str(), worktree_path) {
        None => Progress::Done(()),
        Some(text) => ask_done(
            replies,
            pos,
            Request::WriteText(path, text),
            ErrorKind::Filesystem,
            "failed to write .gitignore",
        ),
    }
}

} // verus!
