//! A set of strings, kept in insertion order.

use vstd::prelude::*;
use crate::text::str_eq;

verus! {

/// A finite set of strings. Its view is the set of their character
/// sequences; the order of insertion is kept for those who list the items.
#[derive(Debug, Clone)]
pub struct StringSet {
    items: Vec<String>,
}

impl Default for StringSet {
    /// The empty set.
    fn default() -> (out: Self)
        ensures
            out@ == Set::<Seq<char>>::empty(),
            out.listing() == Seq::<Seq<char>>::empty(),
            out.wf(),
    {
        StringSet::new()
    }
}

impl View for StringSet {
    type V = Set<Seq<char>>;

    closed spec fn view(&self) -> Set<Seq<char>> {
        self.items.deep_view().to_set()
    }
}

impl DeepView for StringSet {
    type V = Seq<Seq<char>>;

    /// The deep view of a set is its listing.
    open spec fn deep_view(&self) -> Seq<Seq<char>> {
        self.listing()
    }
}

impl StringSet {
    /// The items in insertion order, each once.
    pub closed spec fn listing(&self) -> Seq<Seq<char>> {
        self.items.deep_view()
    }

    /// No item is listed twice. Every set built through `new` and `insert`
    /// is well formed.
    pub closed spec fn wf(&self) -> bool {
        self.items.deep_view().no_duplicates()
    }

    /// The set holds exactly the items of its listing.
    pub proof fn lemma_listing(&self)
        ensures
            self@ == self.listing().to_set(),
            self@.finite(),
            forall|s: Seq<char>| self@.contains(s) <==> self.listing().contains(s),
    {
        vstd::seq_lib::seq_to_set_is_finite(self.items.deep_view());
    }

    /// The empty set.
    pub fn new() -> (out: Self)
        ensures
            out@ == Set::<Seq<char>>::empty(),
            out.listing() == Seq::<Seq<char>>::empty(),
            out.wf(),
    {
        let out = StringSet { items: Vec::new() };
        assert(out.items.deep_view() == Seq::<Seq<char>>::empty());
        assert(out@ == Set::<Seq<char>>::empty());
        out
    }

    /// How many items it holds.
    pub fn len(&self) -> (n: usize)
        ensures
            n == self.listing().len(),
    {
        self.items.len()
    }

    /// Whether nothing is in it.
    pub fn is_empty(&self) -> (r: bool)
        ensures
            r == (self.listing().len() == 0),
            r == (self@ == Set::<Seq<char>>::empty()),
    {
        let r = self.items.len() == 0;
        proof {
            if r {
                assert(self@ == Set::<Seq<char>>::empty());
            } else {
                assert(self.items.deep_view().contains(self.items.deep_view()[0]));
                assert(self@.contains(self.items.deep_view()[0]));
            }
        }
        r
    }

    /// Whether the item is in the collection.
    pub fn contains(&self, item: &str) -> (r: bool)
        ensures
            r == self@.contains(item@),
    {
        let mut i: usize = 0;
        while i < self.items.len()
            invariant
                i <= self.items.len(),
                forall|j: int| 0 <= j < i ==> self.items.deep_view()[j] != item@,
            decreases self.items.len() - i,
        {
            if str_eq(self.items[i].as_str(), item) {
                assert(self.items.deep_view()[i as int] == item@);
                assert(self.items.deep_view().contains(item@));
                return true;
            }
            i += 1;
        }
        false
    }

    /// Adds `item`; says whether it was new.
    pub fn insert(&mut self, item: String) -> (added: bool)
        ensures
            final(self)@ == old(self)@.insert(item@),
            added == !old(self)@.contains(item@),
            final(self).listing() == if added {
                old(self).listing().push(item@)
            } else {
                old(self).listing()
            },
            old(self).wf() ==> final(self).wf(),
    {
        if self.contains(item.as_str()) {
            assert(self@.insert(item@) == self@);
            false
        } else {
            let ghost before = self.items.deep_view();
            self.items.push(item);
            assert(self.items.deep_view() == before.push(item@));
            assert(self@ == before.to_set().insert(item@)) by {
                assert forall|s: Seq<char>|
                    before.push(item@).contains(s) <==> (before.contains(s) || s == item@) by {
                    if before.push(item@).contains(s) {
                        let k = choose|k: int|
                            0 <= k < before.push(item@).len() && before.push(item@)[k] == s;
                        if k < before.len() {
                            assert(before[k] == s);
                        }
                    }
                    if before.contains(s) {
                        let k = choose|k: int| 0 <= k < before.len() && before[k] == s;
                        assert(before.push(item@)[k] == s);
                    }
                    if s == item@ {
                        assert(before.push(item@)[before.len() as int] == s);
                    }
                }
                assert(before.push(item@).to_set() =~= before.to_set().insert(item@));
            }
            assert(!before.contains(item@));
            true
        }
    }

    /// The items in insertion order.
    pub fn to_vec(&self) -> (out: Vec<String>)
        ensures
            out.deep_view() == self.listing(),
    {
        crate::split::clone_strings(&self.items)
    }

    /// The item at `index` of the listing.
    pub fn get(&self, index: usize) -> (item: &String)
        requires
            index < self.listing().len(),
        ensures
            item@ == self.listing()[index as int],
    {
        &self.items[index]
    }
}

} // verus!
