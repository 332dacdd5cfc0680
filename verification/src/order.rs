//! The dictionary order of strings, and sorting by it.

use vstd::prelude::*;
use crate::text::to_chars;

verus! {

/// `a` comes before `b` in dictionary order, or equals it. Characters are
/// compared by code point, as strings are when their bytes are compared.
pub open spec fn lex_le(a: Seq<char>, b: Seq<char>) -> bool
    decreases a.len(),
{
    if a.len() == 0 {
        true
    } else if b.len() == 0 {
        false
    } else if a[0] != b[0] {
        a[0] < b[0]
    } else {
        lex_le(a.drop_first(), b.drop_first())
    }
}

/// Every item comes before, or equals, every later one.
pub open spec fn sorted(s: Seq<Seq<char>>) -> bool {
    forall|i: int, j: int| 0 <= i < j < s.len() ==> lex_le(s[i], s[j])
}

/// Of two strings, one comes before the other or equals it.
pub proof fn lemma_lex_total(a: Seq<char>, b: Seq<char>)
    ensures
        lex_le(a, b) || lex_le(b, a),
    decreases a.len(),
{
    if a.len() > 0 && b.len() > 0 && a[0] == b[0] {
        lemma_lex_total(a.drop_first(), b.drop_first());
    }
}

/// What comes before something that comes before a third comes before the
/// third.
pub proof fn lemma_lex_trans(a: Seq<char>, b: Seq<char>, c: Seq<char>)
    requires
        lex_le(a, b),
        lex_le(b, c),
    ensures
        lex_le(a, c),
    decreases a.len(),
{
    if a.len() > 0 && b.len() > 0 && c.len() > 0 && a[0] == b[0] && b[0] == c[0] {
        lemma_lex_trans(a.drop_first(), b.drop_first(), c.drop_first());
    }
}

/// Compares two strings in dictionary order.
pub fn chars_le(a: &Vec<char>, b: &Vec<char>) -> (r: bool)
    ensures
        r == lex_le(a@, b@),
{
    let mut i: usize = 0;
    assert(a@.skip(0) == a@ && b@.skip(0) == b@);
    while i < a.len() && i < b.len()
        invariant
            i <= a.len(),
            i <= b.len(),
            lex_le(a@, b@) == lex_le(a@.skip(i as int), b@.skip(i as int)),
        decreases a.len() - i,
    {
        if a[i] != b[i] {
            return a[i] < b[i];
        }
        assert(a@.skip(i as int).drop_first() == a@.skip(i + 1));
        assert(b@.skip(i as int).drop_first() == b@.skip(i + 1));
        i += 1;
    }
    i == a.len()
}

/// Compares two strings in dictionary order.
pub fn str_le(a: &str, b: &str) -> (r: bool)
    ensures
        r == lex_le(a@, b@),
{
    let x = to_chars(a);
    let y = to_chars(b);
    chars_le(&x, &y)
}

/// The first position of `s` whose item comes after `x`; the length of
/// `s` where there is none.
pub open spec fn first_after(s: Seq<Seq<char>>, x: Seq<char>, from: int) -> int
    decreases s.len() - from,
{
    if from < 0 || from >= s.len() {
        s.len() as int
    } else if !lex_le(s[from], x) {
        from
    } else {
        first_after(s, x, from + 1)
    }
}

/// The items in dictionary order: each item in turn is put before the first
/// item that comes after it.
pub open spec fn sorted_listing(items: Seq<Seq<char>>) -> Seq<Seq<char>>
    decreases items.len(),
{
    if items.len() == 0 {
        Seq::<Seq<char>>::empty()
    } else {
        let init = sorted_listing(items.drop_last());
        init.insert(first_after(init, items.last(), 0), items.last())
    }
}

proof fn lemma_first_after(s: Seq<Seq<char>>, x: Seq<char>, from: int)
    requires
        0 <= from <= s.len(),
    ensures
        from <= first_after(s, x, from) <= s.len(),
        forall|k: int| from <= k < first_after(s, x, from) ==> lex_le(#[trigger] s[k], x),
        first_after(s, x, from) < s.len() ==> !lex_le(s[first_after(s, x, from)], x),
    decreases s.len() - from,
{
    if from < s.len() && lex_le(s[from], x) {
        lemma_first_after(s, x, from + 1);
    }
}

/// A sorted listing is sorted, and holds the same items as often as the
/// sequence that it lists.
pub proof fn lemma_sorted_listing(items: Seq<Seq<char>>)
    ensures
        sorted(sorted_listing(items)),
        sorted_listing(items).to_multiset() == items.to_multiset(),
        sorted_listing(items).len() == items.len(),
    decreases items.len(),
{
    if items.len() == 0 {
        assert(items == Seq::<Seq<char>>::empty());
    } else {
        let init = items.drop_last();
        let x = items.last();
        let before = sorted_listing(init);
        lemma_sorted_listing(init);
        let p = first_after(before, x, 0);
        lemma_first_after(before, x, 0);
        let after = before.insert(p, x);
        vstd::seq_lib::to_multiset_insert(before, p, x);
        assert(init.push(x) == items);
        vstd::seq_lib::to_multiset_build(init, x);
        assert forall|a: int, b: int| 0 <= a < b < after.len() implies lex_le(
            after[a],
            after[b],
        ) by {
            if b < p {
                assert(after[a] == before[a] && after[b] == before[b]);
            } else if b == p {
                assert(after[a] == before[a]);
            } else if a < p {
                assert(after[a] == before[a] && after[b] == before[b - 1]);
            } else if a == p {
                assert(after[b] == before[b - 1]);
                lemma_lex_total(before[p], x);
                if b - 1 > p {
                    lemma_lex_trans(x, before[p], before[b - 1]);
                }
            } else {
                assert(after[a] == before[a - 1] && after[b] == before[b - 1]);
            }
        }
    }
}

/// The items of `items` in dictionary order.
pub fn sort_strs<'a>(items: Vec<&'a str>) -> (out: Vec<&'a str>)
    ensures
        out.deep_view() == sorted_listing(items.deep_view()),
{
    let mut out: Vec<&'a str> = Vec::new();
    let mut i: usize = 0;
    assert(items.deep_view().take(0) == Seq::<Seq<char>>::empty());
    assert(out.deep_view() == Seq::<Seq<char>>::empty());
    while i < items.len()
        invariant
            i <= items.len(),
            out.len() == i,
            out.deep_view() == sorted_listing(items.deep_view().take(i as int)),
        decreases items.len() - i,
    {
        let x: &'a str = items[i];
        let mut p: usize = 0;
        while p < out.len() && str_le(out[p], x)
            invariant
                p <= out.len(),
                first_after(out.deep_view(), x@, 0) == first_after(out.deep_view(), x@, p as int),
            decreases out.len() - p,
        {
            p += 1;
        }
        let ghost before = out.deep_view();
        out.insert(p, x);
        assert(out.deep_view() == before.insert(p as int, x@));
        assert(items.deep_view().take(i + 1).drop_last() == items.deep_view().take(i as int));
        assert(items.deep_view().take(i + 1).last() == x@);
        i += 1;
    }
    assert(items.deep_view().take(items.len() as int) == items.deep_view());
    out
}

} // verus!
