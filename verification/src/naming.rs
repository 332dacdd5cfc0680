//! Directory names for worktrees.
//!
//! A branch name may hold characters that do not belong in a directory name.
//! The worktree of a branch lives in `_<normalised branch>.wt`; the branch
//! itself is recorded unchanged in the baum descriptor.

use vstd::prelude::*;
use crate::text::{from_chars, is_alnum, is_ascii_alphanumeric, push_all, subvec, to_chars};

verus! {

/// Characters that pass through normalisation unchanged.
pub open spec fn is_plain(c: char) -> bool {
    is_alnum(c) || c == '-' || c == '_' || c == '.'
}

/// What one character of a branch name becomes.
pub open spec fn rewrite_char(c: char) -> Seq<char> {
    if c == '/' || c == '\\' {
        seq!['-', '-']
    } else if c == ' ' {
        seq!['-']
    } else if is_plain(c) {
        seq![c]
    } else {
        Seq::<char>::empty()
    }
}

/// Every character rewritten, in order.
pub open spec fn rewrite(s: Seq<char>) -> Seq<char>
    decreases s.len(),
{
    if s.len() == 0 {
        Seq::<char>::empty()
    } else {
        rewrite(s.drop_last()) + rewrite_char(s.last())
    }
}

/// The number of dashes that `s` ends with.
pub open spec fn dash_run(s: Seq<char>) -> nat
    decreases s.len(),
{
    if s.len() > 0 && s.last() == '-' {
        dash_run(s.drop_last()) + 1
    } else {
        0
    }
}

/// `s` with every dash dropped that follows two or more dashes.
pub open spec fn collapse(s: Seq<char>) -> Seq<char>
    decreases s.len(),
{
    if s.len() == 0 {
        Seq::<char>::empty()
    } else if s.last() == '-' && dash_run(s.drop_last()) >= 2 {
        collapse(s.drop_last())
    } else {
        collapse(s.drop_last()).push(s.last())
    }
}

/// `s` without the dashes at its start.
pub open spec fn strip_start(s: Seq<char>) -> Seq<char>
    decreases s.len(),
{
    if s.len() > 0 && s[0] == '-' {
        strip_start(s.drop_first())
    } else {
        s
    }
}

/// `s` without the dashes at its end.
pub open spec fn strip_end(s: Seq<char>) -> Seq<char>
    decreases s.len(),
{
    if s.len() > 0 && s.last() == '-' {
        strip_end(s.drop_last())
    } else {
        s
    }
}

/// `s` without the dashes at its two ends.
pub open spec fn strip_dashes(s: Seq<char>) -> Seq<char> {
    strip_end(strip_start(s))
}

/// The normalised form of a branch name: separators become dashes, other
/// special characters vanish, runs of dashes shrink to two, and no dash is
/// left at either end.
pub open spec fn normalized(branch: Seq<char>) -> Seq<char> {
    strip_dashes(collapse(rewrite(branch)))
}

/// The directory name of the worktree of `branch`.
pub open spec fn dir_name(branch: Seq<char>) -> Seq<char> {
    seq!['_'] + normalized(branch) + seq!['.', 'w', 't']
}

/// No prefix of `s` ends in three dashes.
pub open spec fn short_runs(s: Seq<char>) -> bool {
    forall|k: int| 0 <= k <= s.len() ==> dash_run(#[trigger] s.take(k)) <= 2
}

/// Whether every character passes through normalisation unchanged.
pub open spec fn all_plain(s: Seq<char>) -> bool {
    forall|i: int| 0 <= i < s.len() ==> is_plain(#[trigger] s[i])
}

/// A string in normal form: what `normalized` produces and leaves alone.
pub open spec fn is_normal(s: Seq<char>) -> bool {
    &&& all_plain(s)
    &&& short_runs(s)
    &&& (s.len() > 0 ==> s[0] != '-' && s.last() != '-')
}

proof fn lemma_rewrite_plain(s: Seq<char>)
    ensures
        all_plain(rewrite(s)),
    decreases s.len(),
{
    if s.len() > 0 {
        lemma_rewrite_plain(s.drop_last());
    }
}

proof fn lemma_collapse_shape(s: Seq<char>)
    ensures
        all_plain(s) ==> all_plain(collapse(s)),
        short_runs(collapse(s)),
        dash_run(collapse(s)) == if dash_run(s) <= 2 {
            dash_run(s)
        } else {
            2
        },
    decreases s.len(),
{
    let c = collapse(s);
    if s.len() == 0 {
        assert forall|k: int| 0 <= k <= c.len() implies dash_run(#[trigger] c.take(k)) <= 2 by {}
    } else {
        let init = s.drop_last();
        let p = collapse(init);
        lemma_collapse_shape(init);
        if all_plain(s) {
            assert forall|i: int| 0 <= i < init.len() implies is_plain(#[trigger] init[i]) by {
                assert(init[i] == s[i]);
            }
        }
        if s.last() == '-' && dash_run(init) >= 2 {
        } else {
            assert(c.drop_last() == p);
            assert forall|k: int| 0 <= k <= c.len() implies dash_run(#[trigger] c.take(k))
                <= 2 by {
                if k <= p.len() {
                    assert(c.take(k) == p.take(k));
                } else {
                    assert(c.take(k) == c);
                }
            }
        }
    }
}

proof fn lemma_run_of_subrange(s: Seq<char>, i: int, k: int)
    requires
        0 <= i <= k <= s.len(),
    ensures
        dash_run(s.subrange(i, k)) <= dash_run(s.take(k)),
    decreases k - i,
{
    if i < k && s[k - 1] == '-' {
        lemma_run_of_subrange(s, i, k - 1);
        assert(s.subrange(i, k).drop_last() == s.subrange(i, k - 1));
        assert(s.take(k).drop_last() == s.take(k - 1));
    }
}

proof fn lemma_strip_start_shape(s: Seq<char>)
    ensures
        strip_start(s).len() <= s.len(),
        strip_start(s) == s.subrange(s.len() - strip_start(s).len(), s.len() as int),
        strip_start(s).len() > 0 ==> strip_start(s)[0] != '-',
    decreases s.len(),
{
    if s.len() > 0 && s[0] == '-' {
        let d = s.drop_first();
        lemma_strip_start_shape(d);
        let t = strip_start(d);
        assert(d.subrange(d.len() - t.len(), d.len() as int) == s.subrange(
            s.len() - t.len(),
            s.len() as int,
        ));
    } else {
        assert(s.subrange(0, s.len() as int) == s);
    }
}

proof fn lemma_strip_end_shape(s: Seq<char>)
    ensures
        strip_end(s).len() <= s.len(),
        strip_end(s) == s.subrange(0, strip_end(s).len() as int),
        strip_end(s).len() > 0 ==> strip_end(s).last() != '-',
    decreases s.len(),
{
    if s.len() > 0 && s.last() == '-' {
        let d = s.drop_last();
        lemma_strip_end_shape(d);
        let t = strip_end(d);
        assert(d.subrange(0, t.len() as int) == s.subrange(0, t.len() as int));
    } else {
        assert(s.subrange(0, s.len() as int) == s);
    }
}

/// Normalisation always ends in normal form.
pub proof fn lemma_normalized_is_normal(branch: Seq<char>)
    ensures
        is_normal(normalized(branch)),
{
    let r = rewrite(branch);
    let c = collapse(r);
    lemma_rewrite_plain(branch);
    lemma_collapse_shape(r);
    let a = strip_start(c);
    lemma_strip_start_shape(c);
    let n = strip_end(a);
    lemma_strip_end_shape(a);
    let lo = c.len() - a.len();
    assert(n == c.subrange(lo, lo + n.len())) by {
        assert(a.subrange(0, n.len() as int) == c.subrange(lo, lo + n.len()));
    }
    assert forall|i: int| 0 <= i < n.len() implies is_plain(#[trigger] n[i]) by {
        assert(n[i] == c[lo + i]);
    }
    assert forall|k: int| 0 <= k <= n.len() implies dash_run(#[trigger] n.take(k)) <= 2 by {
        assert(n.take(k) == c.subrange(lo, lo + k));
        lemma_run_of_subrange(c, lo, lo + k);
        assert(dash_run(c.take(lo + k)) <= 2);
    }
    if n.len() > 0 {
        assert(n[0] == a[0]);
    }
}

proof fn lemma_rewrite_fixed(s: Seq<char>)
    requires
        all_plain(s),
    ensures
        rewrite(s) == s,
    decreases s.len(),
{
    if s.len() > 0 {
        let init = s.drop_last();
        assert forall|i: int| 0 <= i < init.len() implies is_plain(#[trigger] init[i]) by {
            assert(init[i] == s[i]);
        }
        lemma_rewrite_fixed(init);
        assert(is_plain(s[s.len() - 1]));
        assert(rewrite_char(s.last()) == seq![s.last()]);
        assert(init + seq![s.last()] == s);
    }
}

proof fn lemma_collapse_fixed(s: Seq<char>)
    requires
        short_runs(s),
    ensures
        collapse(s) == s,
    decreases s.len(),
{
    if s.len() > 0 {
        let init = s.drop_last();
        assert forall|k: int| 0 <= k <= init.len() implies dash_run(#[trigger] init.take(k))
            <= 2 by {
            assert(init.take(k) == s.take(k));
        }
        lemma_collapse_fixed(init);
        assert(s.take(s.len() as int) == s);
        assert(init.take(init.len() as int) == init);
        assert(init.push(s.last()) == s);
    }
}

/// Normal forms are fixed points of normalisation.
pub proof fn lemma_normal_is_fixed(s: Seq<char>)
    requires
        is_normal(s),
    ensures
        normalized(s) == s,
{
    lemma_rewrite_fixed(s);
    lemma_collapse_fixed(s);
}

/// Normalising twice is normalising once, so the directory name of a branch
/// is also the directory name of its normalised form.
pub proof fn lemma_normalize_idempotent(branch: Seq<char>)
    ensures
        normalized(normalized(branch)) == normalized(branch),
        dir_name(normalized(branch)) == dir_name(branch),
{
    lemma_normalized_is_normal(branch);
    lemma_normal_is_fixed(normalized(branch));
}

fn rewrite_chars(v: &Vec<char>) -> (out: Vec<char>)
    ensures
        out@ == rewrite(v@),
{
    let mut out: Vec<char> = Vec::new();
    let mut i: usize = 0;
    assert(v@.take(0) == Seq::<char>::empty());
    while i < v.len()
        invariant
            i <= v.len(),
            out@ == rewrite(v@.take(i as int)),
        decreases v.len() - i,
    {
        let c = v[i];
        assert(v@.take(i + 1).drop_last() == v@.take(i as int));
        assert(v@.take(i + 1).last() == c);
        let ghost o0 = out@;
        if c == '/' || c == '\\' {
            out.push('-');
            out.push('-');
            assert(out@ == o0 + seq!['-', '-']);
        } else if c == ' ' {
            out.push('-');
            assert(out@ == o0 + seq!['-']);
        } else if is_ascii_alphanumeric(c) || c == '-' || c == '_' || c == '.' {
            out.push(c);
            assert(out@ == o0 + seq![c]);
        } else {
            assert(out@ == o0 + Seq::<char>::empty());
        }
        i += 1;
    }
    assert(v@.take(v.len() as int) == v@);
    out
}

fn collapse_chars(v: &Vec<char>) -> (out: Vec<char>)
    ensures
        out@ == collapse(v@),
{
    let mut out: Vec<char> = Vec::new();
    let mut run: usize = 0;
    let mut i: usize = 0;
    assert(v@.take(0) == Seq::<char>::empty());
    while i < v.len()
        invariant
            i <= v.len(),
            run <= i,
            run == dash_run(v@.take(i as int)),
            out@ == collapse(v@.take(i as int)),
        decreases v.len() - i,
    {
        let c = v[i];
        assert(v@.take(i + 1).drop_last() == v@.take(i as int));
        assert(v@.take(i + 1).last() == c);
        if c == '-' {
            if run < 2 {
                out.push(c);
            }
            run += 1;
        } else {
            run = 0;
            out.push(c);
        }
        i += 1;
    }
    assert(v@.take(v.len() as int) == v@);
    out
}

fn strip_chars(v: &Vec<char>) -> (out: Vec<char>)
    ensures
        out@ == strip_dashes(v@),
{
    let mut i: usize = 0;
    assert(v@.skip(0) == v@);
    while i < v.len() && v[i] == '-'
        invariant
            i <= v.len(),
            strip_start(v@) == strip_start(v@.skip(i as int)),
        decreases v.len() - i,
    {
        assert(v@.skip(i as int).drop_first() == v@.skip(i + 1));
        i += 1;
    }
    let mut j: usize = v.len();
    assert(v@.subrange(i as int, j as int) == v@.skip(i as int));
    while j > i && v[j - 1] == '-'
        invariant
            i <= j <= v.len(),
            strip_dashes(v@) == strip_end(v@.subrange(i as int, j as int)),
        decreases j,
    {
        assert(v@.subrange(i as int, j as int).drop_last() == v@.subrange(i as int, j - 1));
        j -= 1;
    }
    subvec(v, i, j)
}

/// Normalises a branch name for use as a directory component.
pub fn normalize_branch_for_path(branch: &str) -> (out: String)
    ensures
        out@ == normalized(branch@),
        is_normal(out@),
{
    let v = to_chars(branch);
    let r = rewrite_chars(&v);
    let c = collapse_chars(&r);
    let s = strip_chars(&c);
    proof {
        lemma_normalized_is_normal(branch@);
    }
    from_chars(&s)
}

/// The worktree directory name of a branch: `_<normalised branch>.wt`.
pub fn worktree_dir_name(branch: &str) -> (out: String)
    ensures
        out@ == dir_name(branch@),
{
    let n = normalize_branch_for_path(branch);
    let mut out: Vec<char> = Vec::new();
    out.push('_');
    let nc = to_chars(n.as_str());
    push_all(&mut out, &nc);
    out.push('.');
    out.push('w');
    out.push('t');
    assert(out@ == dir_name(branch@));
    from_chars(&out)
}

} // verus!
