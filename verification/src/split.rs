//! Splitting, joining, trimming and line breaking, each with its meaning as a
//! function on `Seq<char>`.

use vstd::prelude::*;
use crate::text::{from_chars, is_space, is_whitespace, push_all, subvec, to_chars};

verus! {

broadcast use crate::text::lemma_deep_view_chars;

/// The pieces of `s` between occurrences of `sep`. There is always at least
/// one piece: the empty string has the single piece `""`.
pub open spec fn split(s: Seq<char>, sep: char) -> Seq<Seq<char>>
    decreases s.len(),
{
    if s.len() == 0 {
        seq![Seq::<char>::empty()]
    } else {
        let prev = split(s.drop_last(), sep);
        if s.last() == sep {
            prev.push(Seq::<char>::empty())
        } else {
            prev.drop_last().push(prev.last().push(s.last()))
        }
    }
}

/// A split has at least one piece.
pub proof fn lemma_split_len(s: Seq<char>, sep: char)
    ensures
        split(s, sep).len() >= 1,
    decreases s.len(),
{
    if s.len() > 0 {
        lemma_split_len(s.drop_last(), sep);
    }
}

/// No piece of a split holds the separator.
pub proof fn lemma_split_pieces(s: Seq<char>, sep: char)
    ensures
        forall|i: int, j: int|
            0 <= i < split(s, sep).len() && 0 <= j < split(s, sep)[i].len() ==> split(
                s,
                sep,
            )[i][j] != sep,
    decreases s.len(),
{
    if s.len() > 0 {
        lemma_split_len(s.drop_last(), sep);
        lemma_split_pieces(s.drop_last(), sep);
    }
}

/// `parts` written one after the other with `sep` between neighbours.
pub open spec fn join(parts: Seq<Seq<char>>, sep: Seq<char>) -> Seq<char>
    decreases parts.len(),
{
    if parts.len() == 0 {
        Seq::<char>::empty()
    } else if parts.len() == 1 {
        parts[0]
    } else {
        join(parts.drop_last(), sep) + sep + parts.last()
    }
}

/// Whether `c` occurs in `s`.
pub open spec fn has_char(s: Seq<char>, c: char) -> bool {
    exists|i: int| 0 <= i < s.len() && s[i] == c
}

/// Appending a separator and a piece free of it adds exactly that piece.
pub proof fn lemma_split_append(a: Seq<char>, b: Seq<char>, sep: char)
    requires
        !has_char(b, sep),
    ensures
        split(a + seq![sep] + b, sep) == split(a, sep).push(b),
    decreases b.len(),
{
    let whole = a + seq![sep] + b;
    if b.len() == 0 {
        assert(whole.drop_last() == a);
        assert(whole.last() == sep);
        assert(b == Seq::<char>::empty());
    } else {
        let b0 = b.drop_last();
        assert(!has_char(b0, sep)) by {
            if has_char(b0, sep) {
                let i = choose|i: int| 0 <= i < b0.len() && b0[i] == sep;
                assert(b[i] == sep);
            }
        }
        lemma_split_append(a, b0, sep);
        assert(whole.drop_last() == a + seq![sep] + b0);
        assert(whole.last() == b.last());
        assert(b[b.len() - 1] != sep);
        assert(split(a, sep).push(b0).drop_last() == split(a, sep));
        assert(b0.push(b.last()) == b);
    }
}

/// A piece free of the separator splits into itself.
pub proof fn lemma_split_single(b: Seq<char>, sep: char)
    requires
        !has_char(b, sep),
    ensures
        split(b, sep) == seq![b],
    decreases b.len(),
{
    if b.len() > 0 {
        let b0 = b.drop_last();
        assert(!has_char(b0, sep)) by {
            if has_char(b0, sep) {
                let i = choose|i: int| 0 <= i < b0.len() && b0[i] == sep;
                assert(b[i] == sep);
            }
        }
        lemma_split_single(b0, sep);
        assert(b[b.len() - 1] != sep);
        assert(b0.push(b.last()) == b);
        assert(seq![b0].drop_last().push(b) == seq![b]);
    } else {
        assert(b == Seq::<char>::empty());
    }
}

/// Splitting undoes joining when no part holds the separator.
pub proof fn lemma_split_join(parts: Seq<Seq<char>>, sep: char)
    requires
        parts.len() >= 1,
        forall|i: int| 0 <= i < parts.len() ==> !has_char(#[trigger] parts[i], sep),
    ensures
        split(join(parts, seq![sep]), sep) == parts,
    decreases parts.len(),
{
    if parts.len() == 1 {
        lemma_split_single(parts[0], sep);
        assert(seq![parts[0]] == parts);
    } else {
        let init = parts.drop_last();
        assert forall|i: int| 0 <= i < init.len() implies !has_char(#[trigger] init[i], sep) by {
            assert(init[i] == parts[i]);
        }
        lemma_split_join(init, sep);
        lemma_split_append(join(init, seq![sep]), parts.last(), sep);
        assert(init.push(parts.last()) == parts);
    }
}

/// `s` without its leading white space.
pub open spec fn trim_start(s: Seq<char>) -> Seq<char>
    decreases s.len(),
{
    if s.len() > 0 && is_space(s[0]) {
        trim_start(s.drop_first())
    } else {
        s
    }
}

/// `s` without its trailing white space.
pub open spec fn trim_end(s: Seq<char>) -> Seq<char>
    decreases s.len(),
{
    if s.len() > 0 && is_space(s.last()) {
        trim_end(s.drop_last())
    } else {
        s
    }
}

/// `s` without leading and trailing white space.
pub open spec fn trim(s: Seq<char>) -> Seq<char> {
    trim_end(trim_start(s))
}

/// A string that neither starts nor ends with white space is its own trim.
pub proof fn lemma_trim_fixed(s: Seq<char>)
    requires
        s.len() == 0 || (!is_space(s[0]) && !is_space(s.last())),
    ensures
        trim(s) == s,
{
}

/// The result of trimming neither starts nor ends with white space.
pub proof fn lemma_trim_edges(s: Seq<char>)
    ensures
        trim(s).len() == 0 || (!is_space(trim(s)[0]) && !is_space(trim(s).last())),
        trim(s).len() <= s.len(),
{
    lemma_trim_start_shape(s);
    lemma_trim_end_shape(trim_start(s));
}

/// Trimming the start leaves an end of the string that does not start
/// with white space.
pub proof fn lemma_trim_start_shape(s: Seq<char>)
    ensures
        trim_start(s).len() <= s.len(),
        trim_start(s).len() == 0 || !is_space(trim_start(s)[0]),
        trim_start(s) == s.subrange(s.len() - trim_start(s).len(), s.len() as int),
    decreases s.len(),
{
    if s.len() > 0 && is_space(s[0]) {
        lemma_trim_start_shape(s.drop_first());
        let t = trim_start(s.drop_first());
        assert(s.drop_first().subrange(s.drop_first().len() - t.len(), s.drop_first().len() as int)
            == s.subrange(s.len() - t.len(), s.len() as int));
    } else {
        assert(s.subrange(0, s.len() as int) == s);
    }
}

/// Trimming the end leaves a start of the string that does not end in
/// white space.
pub proof fn lemma_trim_end_shape(s: Seq<char>)
    ensures
        trim_end(s).len() <= s.len(),
        trim_end(s).len() == 0 || !is_space(trim_end(s).last()),
        trim_end(s) == s.subrange(0, trim_end(s).len() as int),
    decreases s.len(),
{
    if s.len() > 0 && is_space(s.last()) {
        lemma_trim_end_shape(s.drop_last());
        let t = trim_end(s.drop_last());
        assert(s.drop_last().subrange(0, t.len() as int) == s.subrange(0, t.len() as int));
    } else {
        assert(s.subrange(0, s.len() as int) == s);
    }
}

/// Splits at every occurrence of `sep`.
pub fn split_chars(v: &Vec<char>, sep: char) -> (out: Vec<Vec<char>>)
    ensures
        out.deep_view() == split(v@, sep),
{
    let mut done: Vec<Vec<char>> = Vec::new();
    let mut cur: Vec<char> = Vec::new();
    let mut i: usize = 0;
    assert(v@.take(0) == Seq::<char>::empty());
    assert(done.deep_view().push(cur@) == seq![Seq::<char>::empty()]);
    while i < v.len()
        invariant
            i <= v.len(),
            done.deep_view().push(cur@) == split(v@.take(i as int), sep),
        decreases v.len() - i,
    {
        let ghost before = done.deep_view().push(cur@);
        let ghost d0 = done.deep_view();
        let ghost c0 = cur@;
        assert(v@.take(i + 1).drop_last() == v@.take(i as int));
        assert(v@.take(i + 1).last() == v@[i as int]);
        if v[i] == sep {
            done.push(cur);
            cur = Vec::new();
            assert(done.deep_view() == before);
        } else {
            cur.push(v[i]);
            assert(before.drop_last() == d0);
            assert(before.last() == c0);
        }
        i += 1;
    }
    assert(v@.take(v.len() as int) == v@);
    let ghost d0 = done.deep_view();
    let ghost c0 = cur@;
    done.push(cur);
    assert(done.deep_view() == d0.push(c0));
    done
}

/// Takes the white space off both ends.
pub fn trim_chars(v: &Vec<char>) -> (out: Vec<char>)
    ensures
        out@ == trim(v@),
{
    let mut i: usize = 0;
    assert(v@.skip(0) == v@);
    while i < v.len() && is_whitespace(v[i])
        invariant
            i <= v.len(),
            trim_start(v@) == trim_start(v@.skip(i as int)),
        decreases v.len() - i,
    {
        assert(v@.skip(i as int).drop_first() == v@.skip(i + 1));
        i += 1;
    }
    let mut j: usize = v.len();
    assert(v@.subrange(i as int, j as int) == v@.skip(i as int));
    while j > i && is_whitespace(v[j - 1])
        invariant
            i <= j <= v.len(),
            trim(v@) == trim_end(v@.subrange(i as int, j as int)),
        decreases j,
    {
        assert(v@.subrange(i as int, j as int).drop_last() == v@.subrange(i as int, j - 1));
        j -= 1;
    }
    subvec(v, i, j)
}

/// One trailing carriage return less, if there is one.
pub open spec fn strip_cr(s: Seq<char>) -> Seq<char> {
    if s.len() > 0 && s.last() == '\r' {
        s.drop_last()
    } else {
        s
    }
}

/// The lines of `s`: it is cut after every line feed, and a line that ended
/// in a line feed loses it together with one carriage return before it. Text
/// after the last line feed is a line of its own unless it is empty.
pub open spec fn lines(s: Seq<char>) -> Seq<Seq<char>> {
    let pieces = split(s, '\n');
    let closed = pieces.drop_last().map_values(|p: Seq<char>| strip_cr(p));
    if pieces.last().len() == 0 {
        closed
    } else {
        closed.push(pieces.last())
    }
}

/// Cuts a text into its lines.
pub fn lines_chars(v: &Vec<char>) -> (out: Vec<Vec<char>>)
    ensures
        out.deep_view() == lines(v@),
{
    let pieces = split_chars(v, '\n');
    proof {
        lemma_split_len(v@, '\n');
    }
    let n: usize = pieces.len();
    let mut out: Vec<Vec<char>> = Vec::new();
    let mut i: usize = 0;
    let ghost closed = pieces.deep_view().drop_last().map_values(|p: Seq<char>| strip_cr(p));
    while i < n - 1
        invariant
            n == pieces.len(),
            n >= 1,
            i <= n - 1,
            closed == pieces.deep_view().drop_last().map_values(|p: Seq<char>| strip_cr(p)),
            out.deep_view() == closed.take(i as int),
        decreases n - i,
    {
        let p = &pieces[i];
        let m: usize = p.len();
        let line = if m > 0 && p[m - 1] == '\r' {
            assert(p@.drop_last() == p@.subrange(0, m - 1));
            subvec(p, 0, m - 1)
        } else {
            assert(p@ == p@.subrange(0, m as int));
            subvec(p, 0, m)
        };
        let ghost o0 = out.deep_view();
        assert(pieces.deep_view()[i as int] == p@);
        assert(line@ == closed[i as int]);
        out.push(line);
        assert(out.deep_view() == o0.push(line@));
        assert(closed.take(i + 1) == closed.take(i as int).push(closed[i as int]));
        i += 1;
    }
    assert(closed.take(closed.len() as int) == closed);
    let last = &pieces[n - 1];
    assert(pieces.deep_view().last() == last@);
    if last.len() > 0 {
        let ghost o0 = out.deep_view();
        let copy = subvec(last, 0, last.len());
        assert(copy@ == last@);
        out.push(copy);
        assert(out.deep_view() == o0.push(last@));
    }
    out
}

/// The strings that hold the characters of each element of `parts`.
pub fn strings_of(parts: &Vec<Vec<char>>) -> (out: Vec<String>)
    ensures
        out.deep_view() == parts.deep_view(),
{
    let mut out: Vec<String> = Vec::new();
    let mut i: usize = 0;
    while i < parts.len()
        invariant
            i <= parts.len(),
            out.deep_view() == parts.deep_view().take(i as int),
        decreases parts.len() - i,
    {
        let ghost o0 = out.deep_view();
        let s = from_chars(&parts[i]);
        out.push(s);
        assert(out.deep_view() == o0.push(parts[i as int]@));
        assert(parts.deep_view().take(i + 1) == parts.deep_view().take(i as int).push(
            parts.deep_view()[i as int],
        ));
        i += 1;
    }
    assert(parts.deep_view().take(parts.len() as int) == parts.deep_view());
    out
}

/// A copy of `items`.
pub fn clone_strings(items: &Vec<String>) -> (out: Vec<String>)
    ensures
        out.deep_view() == items.deep_view(),
{
    let mut out: Vec<String> = Vec::new();
    let mut i: usize = 0;
    while i < items.len()
        invariant
            i <= items.len(),
            out.deep_view() == items.deep_view().take(i as int),
        decreases items.len() - i,
    {
        let ghost o0 = out.deep_view();
        let s = items[i].clone();
        out.push(s);
        assert(out.deep_view() == o0.push(items[i as int]@));
        assert(items.deep_view().take(i + 1) == items.deep_view().take(i as int).push(
            items.deep_view()[i as int],
        ));
        i += 1;
    }
    assert(items.deep_view().take(items.len() as int) == items.deep_view());
    out
}

/// A copy of an optional string.
pub fn clone_opt(item: &Option<String>) -> (out: Option<String>)
    ensures
        out.deep_view() == item.deep_view(),
        out == *item,
{
    match item {
        Some(s) => Some(s.clone()),
        None => None,
    }
}

/// Splits a string at every occurrence of `sep`.
pub fn split_str(s: &str, sep: char) -> (out: Vec<String>)
    ensures
        out.deep_view() == split(s@, sep),
{
    let v = to_chars(s);
    let parts = split_chars(&v, sep);
    strings_of(&parts)
}

/// Takes the white space off both ends of a string.
pub fn trim_str(s: &str) -> (out: String)
    ensures
        out@ == trim(s@),
{
    let v = to_chars(s);
    let t = trim_chars(&v);
    from_chars(&t)
}

/// Writes the parts one after the other with `sep` between neighbours.
pub fn join_strs(parts: &Vec<String>, sep: &str) -> (out: String)
    ensures
        out@ == join(parts.deep_view(), sep@),
{
    let mut acc: Vec<char> = Vec::new();
    let sepc = to_chars(sep);
    let mut i: usize = 0;
    assert(parts.deep_view().take(0) == Seq::<Seq<char>>::empty());
    while i < parts.len()
        invariant
            i <= parts.len(),
            sepc@ == sep@,
            acc@ == join(parts.deep_view().take(i as int), sep@),
        decreases parts.len() - i,
    {
        let ghost pre = parts.deep_view().take(i as int);
        let ghost nxt = parts.deep_view().take(i + 1);
        assert(nxt.drop_last() == pre);
        assert(nxt.last() == parts[i as int]@);
        if i > 0 {
            push_all(&mut acc, &sepc);
        }
        let p = to_chars(parts[i].as_str());
        push_all(&mut acc, &p);
        if i == 0 {
            assert(nxt.len() == 1);
            assert(pre.len() == 0);
            assert(acc@ == parts[i as int]@);
        }
        i += 1;
    }
    assert(parts.deep_view().take(parts.len() as int) == parts.deep_view());
    from_chars(&acc)
}

} // verus!
