//! The central registry of repositories and the descriptor of a baum.

use vstd::prelude::*;
use crate::id::{generate_baum_id, is_baum_id, IdError};
use crate::order::{lemma_sorted_listing, lex_le, sort_strs, sorted_listing};
use crate::split::{clone_opt, clone_strings, lemma_split_len, split, split_str};
use crate::string_set::StringSet;
use crate::text::{from_chars, str_eq, to_chars};

verus! {

/// How Git LFS objects of a repository are fetched.
#[derive(Debug, Clone, Copy, PartialEq, Eq, Structural)]
pub enum LfsPolicy {
    /// Fetch every LFS object.
    Full,
    /// Fetch pointer files only; objects come on demand.
    Minimal,
    /// Leave LFS alone.
    Skip,
}

impl Default for LfsPolicy {
    fn default() -> (r: Self)
        ensures
            r == LfsPolicy::Minimal,
    {
        LfsPolicy::Minimal
    }
}

/// How much history a clone holds.
#[derive(Debug, Clone, Copy, PartialEq, Eq, Structural)]
pub enum DepthPolicy {
    /// All of it.
    Full,
    /// The given number of commits.
    Depth(u32),
}

impl Default for DepthPolicy {
    fn default() -> (r: Self)
        ensures
            r == DepthPolicy::Full,
    {
        DepthPolicy::Full
    }
}

/// The partial-clone filter of a repository.
#[derive(Debug, Clone, Copy, PartialEq, Eq, Structural)]
pub enum FilterPolicy {
    /// No filter: a full clone.
    NoFilter,
    /// Commits and trees are fetched, blobs on demand.
    BlobNone,
    /// Commits are fetched, trees and blobs on demand.
    TreeZero,
}

impl Default for FilterPolicy {
    fn default() -> (r: Self)
        ensures
            r == FilterPolicy::NoFilter,
    {
        FilterPolicy::NoFilter
    }
}

impl FilterPolicy {
    /// The value of git's `--filter` argument; a full clone has none.
    pub fn as_git_arg(&self) -> (r: Option<&'static str>)
        ensures
            match *self {
                FilterPolicy::NoFilter => r.is_none(),
                FilterPolicy::BlobNone => r.is_some() && r.unwrap()@ == "blob:none"@,
                FilterPolicy::TreeZero => r.is_some() && r.unwrap()@ == "tree:0"@,
            },
    {
        match self {
            FilterPolicy::NoFilter => None,
            FilterPolicy::BlobNone => Some("blob:none"),
            FilterPolicy::TreeZero => Some("tree:0"),
        }
    }
}

/// What the registry records of one repository.
#[derive(Debug)]
pub struct RepoEntry {
    pub lfs: LfsPolicy,
    pub depth: DepthPolicy,
    pub filter: FilterPolicy,
    /// The repository this one was forked from, if that is tracked.
    pub upstream: Option<String>,
    /// Short names for this repository, in the order they were given.
    pub aliases: Vec<String>,
}

/// The value of a `RepoEntry`.
pub struct RepoEntryView {
    pub lfs: LfsPolicy,
    pub depth: DepthPolicy,
    pub filter: FilterPolicy,
    pub upstream: Option<Seq<char>>,
    pub aliases: Seq<Seq<char>>,
}

impl View for RepoEntry {
    type V = RepoEntryView;

    open spec fn view(&self) -> RepoEntryView {
        RepoEntryView {
            lfs: self.lfs,
            depth: self.depth,
            filter: self.filter,
            upstream: self.upstream.deep_view(),
            aliases: self.aliases.deep_view(),
        }
    }
}

impl Clone for RepoEntry {
    fn clone(&self) -> (r: Self)
        ensures
            r@ == self@,
    {
        RepoEntry {
            lfs: self.lfs,
            depth: self.depth,
            filter: self.filter,
            upstream: clone_opt(&self.upstream),
            aliases: clone_strings(&self.aliases),
        }
    }
}

impl Default for RepoEntry {
    fn default() -> (r: Self)
        ensures
            r@ == (RepoEntryView {
                lfs: LfsPolicy::Minimal,
                depth: DepthPolicy::Full,
                filter: FilterPolicy::NoFilter,
                upstream: None,
                aliases: Seq::empty(),
            }),
    {
        let r = RepoEntry {
            lfs: LfsPolicy::Minimal,
            depth: DepthPolicy::Full,
            filter: FilterPolicy::NoFilter,
            upstream: None,
            aliases: Vec::new(),
        };
        assert(r.aliases.deep_view() == Seq::<Seq<char>>::empty());
        r
    }
}

/// The registry as a value: repository IDs with their entries, in the order
/// in which they were registered.
pub type Registry = Seq<(Seq<char>, RepoEntryView)>;

/// Whether the registry holds `key`.
pub open spec fn has_key(r: Registry, key: Seq<char>) -> bool {
    exists|i: int| 0 <= i < r.len() && (#[trigger] r[i]).0 == key
}

/// No repository ID occurs twice.
pub open spec fn distinct_keys(r: Registry) -> bool {
    forall|i: int, j: int|
        0 <= i < r.len() && 0 <= j < r.len() && i != j ==> (#[trigger] r[i]).0 != (#[trigger] r[j]).0
}

/// The repository IDs, in registry order.
pub open spec fn keys_of(r: Registry) -> Seq<Seq<char>> {
    r.map_values(|p: (Seq<char>, RepoEntryView)| p.0)
}

/// The position of `key`, where the registry holds it.
pub open spec fn index_of_key(r: Registry, key: Seq<char>) -> int {
    choose|i: int| 0 <= i < r.len() && (#[trigger] r[i]).0 == key
}

#[derive(Debug)]
struct RepoSlot {
    key: String,
    entry: RepoEntry,
}

/// The repositories of a registry, keyed by repository ID. No ID occurs
/// twice; the order of registration is kept.
#[derive(Debug)]
pub struct RepoMap {
    slots: Vec<RepoSlot>,
}

spec fn slots_view(slots: Seq<RepoSlot>) -> Registry {
    Seq::new(slots.len(), |i: int| (slots[i].key@, slots[i].entry@))
}

impl View for RepoMap {
    type V = Registry;

    closed spec fn view(&self) -> Registry {
        slots_view(self.slots@)
    }
}

impl Clone for RepoMap {
    fn clone(&self) -> (r: Self)
        ensures
            r@ == self@,
    {
        proof {
            use_type_invariant(self);
        }
        let mut slots: Vec<RepoSlot> = Vec::new();
        let mut i: usize = 0;
        while i < self.slots.len()
            invariant
                i <= self.slots.len(),
                slots_view(slots@) == slots_view(self.slots@).take(i as int),
            decreases self.slots.len() - i,
        {
            let key = self.slots[i].key.clone();
            let entry = self.slots[i].entry.clone();
            let ghost done = slots_view(slots@);
            slots.push(RepoSlot { key, entry });
            assert(slots_view(slots@) == done.push((key@, entry@)));
            assert(slots_view(self.slots@).take(i + 1) == slots_view(self.slots@).take(
                i as int,
            ).push(slots_view(self.slots@)[i as int]));
            i += 1;
        }
        assert(slots_view(self.slots@).take(self.slots.len() as int) == slots_view(self.slots@));
        RepoMap { slots }
    }
}

impl Default for RepoMap {
    fn default() -> (r: Self)
        ensures
            r@ == Seq::<(Seq<char>, RepoEntryView)>::empty(),
    {
        RepoMap::new()
    }
}

impl RepoMap {
    #[verifier::type_invariant]
    spec fn inv(&self) -> bool {
        distinct_keys(slots_view(self.slots@))
    }

    /// The registry without repositories.
    pub fn new() -> (out: Self)
        ensures
            out@ == Seq::<(Seq<char>, RepoEntryView)>::empty(),
    {
        let slots: Vec<RepoSlot> = Vec::new();
        assert(slots_view(slots@) == Seq::<(Seq<char>, RepoEntryView)>::empty());
        RepoMap { slots }
    }

    /// The number of repositories. Their IDs differ from each other.
    pub fn len(&self) -> (n: usize)
        ensures
            n == self@.len(),
            distinct_keys(self@),
    {
        proof {
            use_type_invariant(self);
        }
        self.slots.len()
    }

    /// Whether nothing is in it.
    pub fn is_empty(&self) -> (r: bool)
        ensures
            r == (self@.len() == 0),
    {
        self.slots.len() == 0
    }

    /// Where `key` stands, if it is registered.
    pub fn position(&self, key: &str) -> (r: Option<usize>)
        ensures
            match r {
                Some(i) => i < self@.len() && self@[i as int].0 == key@ && i == index_of_key(
                    self@,
                    key@,
                ),
                None => !has_key(self@, key@),
            },
    {
        proof {
            use_type_invariant(self);
        }
        let mut i: usize = 0;
        while i < self.slots.len()
            invariant
                i <= self.slots.len(),
                distinct_keys(self@),
                forall|j: int| 0 <= j < i ==> (#[trigger] self@[j]).0 != key@,
            decreases self.slots.len() - i,
        {
            if str_eq(self.slots[i].key.as_str(), key) {
                assert(self@[i as int].0 == key@);
                let ghost k = index_of_key(self@, key@);
                assert(self@[k].0 == key@);
                return Some(i);
            }
            i += 1;
        }
        None
    }

    /// Whether `key` is registered.
    pub fn contains_key(&self, key: &str) -> (r: bool)
        ensures
            r == has_key(self@, key@),
    {
        self.position(key).is_some()
    }

    /// The entry of `key`, if it is registered.
    pub fn get(&self, key: &str) -> (r: Option<&RepoEntry>)
        ensures
            match r {
                Some(e) => has_key(self@, key@) && e@ == self@[index_of_key(self@, key@)].1,
                None => !has_key(self@, key@),
            },
    {
        match self.position(key) {
            Some(i) => Some(&self.slots[i].entry),
            None => None,
        }
    }

    /// The ID at position `i`.
    pub fn key_at(&self, i: usize) -> (r: &str)
        requires
            i < self@.len(),
        ensures
            r@ == self@[i as int].0,
    {
        self.slots[i].key.as_str()
    }

    /// The entry at position `i`.
    pub fn entry_at(&self, i: usize) -> (r: &RepoEntry)
        requires
            i < self@.len(),
        ensures
            r@ == self@[i as int].1,
    {
        &self.slots[i].entry
    }

    /// Registers `entry` under `key`. An entry that `key` already had is
    /// replaced in its place and handed back.
    pub fn insert(&mut self, key: String, entry: RepoEntry) -> (prev: Option<RepoEntry>)
        ensures
            match prev {
                Some(e) => has_key(old(self)@, key@) && e@ == old(self)@[index_of_key(
                    old(self)@,
                    key@,
                )].1 && final(self)@ == old(self)@.update(
                    index_of_key(old(self)@, key@),
                    (key@, entry@),
                ),
                None => !has_key(old(self)@, key@) && final(self)@ == old(self)@.push(
                    (key@, entry@),
                ),
            },
    {
        proof {
            use_type_invariant(&*self);
        }
        let ghost before = self@;
        match self.position(key.as_str()) {
            Some(i) => {
                let slot = RepoSlot { key, entry };
                let mut slots = Vec::new();
                core::mem::swap(&mut slots, &mut self.slots);
                slots.push(slot);
                let old_slot = slots.swap_remove(i);
                assert(slots_view(slots@) == before.update(i as int, (key@, entry@)));
                assert(distinct_keys(slots_view(slots@)));
                *self = RepoMap { slots };
                Some(old_slot.entry)
            },
            None => {
                let slot = RepoSlot { key, entry };
                let mut slots = Vec::new();
                core::mem::swap(&mut slots, &mut self.slots);
                slots.push(slot);
                let ghost after = slots_view(slots@);
                assert(after == before.push((key@, entry@)));
                assert(distinct_keys(after)) by {
                    assert forall|a: int, b: int|
                        0 <= a < after.len() && 0 <= b < after.len() && a != b implies (
                    #[trigger] after[a]).0 != (#[trigger] after[b]).0 by {
                        if a < before.len() {
                            assert(after[a] == before[a]);
                        }
                        if b < before.len() {
                            assert(after[b] == before[b]);
                        }
                    }
                }
                *self = RepoMap { slots };
                None
            },
        }
    }

    /// Takes `key` out of the registry and hands its entry back.
    pub fn remove(&mut self, key: &str) -> (prev: Option<RepoEntry>)
        ensures
            match prev {
                Some(e) => has_key(old(self)@, key@) && e@ == old(self)@[index_of_key(
                    old(self)@,
                    key@,
                )].1 && final(self)@ == old(self)@.remove(index_of_key(old(self)@, key@)),
                None => !has_key(old(self)@, key@) && final(self)@ == old(self)@,
            },
    {
        proof {
            use_type_invariant(&*self);
        }
        let ghost before = self@;
        match self.position(key) {
            Some(i) => {
                let mut slots = Vec::new();
                core::mem::swap(&mut slots, &mut self.slots);
                let old_slot = slots.remove(i);
                let ghost after = slots_view(slots@);
                assert(after == before.remove(i as int));
                assert(distinct_keys(after)) by {
                    assert forall|a: int, b: int|
                        0 <= a < after.len() && 0 <= b < after.len() && a != b implies (
                    #[trigger] after[a]).0 != (#[trigger] after[b]).0 by {
                        let a0 = if a < i { a } else { a + 1 };
                        let b0 = if b < i { b } else { b + 1 };
                        assert(after[a] == before[a0]);
                        assert(after[b] == before[b0]);
                    }
                }
                *self = RepoMap { slots };
                Some(old_slot.entry)
            },
            None => None,
        }
    }

    /// Sets the filter policy of `key`; says whether `key` is registered.
    pub fn set_filter(&mut self, key: &str, filter: FilterPolicy) -> (found: bool)
        ensures
            found == has_key(old(self)@, key@),
            found ==> final(self)@ == old(self)@.update(
                index_of_key(old(self)@, key@),
                (
                    key@,
                    RepoEntryView { filter, ..old(self)@[index_of_key(old(self)@, key@)].1 },
                ),
            ),
            !found ==> final(self)@ == old(self)@,
    {
        proof {
            use_type_invariant(&*self);
        }
        let ghost before = self@;
        match self.position(key) {
            Some(i) => {
                let mut slots = Vec::new();
                core::mem::swap(&mut slots, &mut self.slots);
                let old_slot = slots.remove(i);
                let RepoSlot { key: k, entry: e } = old_slot;
                let slot = RepoSlot {
                    key: k,
                    entry: RepoEntry {
                        lfs: e.lfs,
                        depth: e.depth,
                        filter,
                        upstream: e.upstream,
                        aliases: e.aliases,
                    },
                };
                slots.insert(i, slot);
                assert(slots_view(slots@) == before.update(
                    i as int,
                    (key@, RepoEntryView { filter, ..before[i as int].1 }),
                ));
                assert(distinct_keys(slots_view(slots@)));
                *self = RepoMap { slots };
                true
            },
            None => false,
        }
    }
}

} // verus!

verus! {

broadcast use crate::text::lemma_deep_view_chars;

/// The central registry of a workspace.
#[derive(Debug)]
pub struct Manifest {
    /// Registered repositories, keyed by repository ID.
    pub repos: RepoMap,
}

impl View for Manifest {
    type V = Registry;

    open spec fn view(&self) -> Registry {
        self.repos@
    }
}

impl DeepView for Manifest {
    type V = Registry;

    open spec fn deep_view(&self) -> Registry {
        self@
    }
}

impl Clone for Manifest {
    fn clone(&self) -> (r: Self)
        ensures
            r@ == self@,
    {
        Manifest { repos: self.repos.clone() }
    }
}

impl Default for Manifest {
    fn default() -> (r: Self)
        ensures
            r@ == Seq::<(Seq<char>, RepoEntryView)>::empty(),
    {
        Manifest { repos: RepoMap::new() }
    }
}

/// The IDs of the entries that list `reference` among their aliases, in
/// registry order.
pub open spec fn alias_matches(r: Registry, reference: Seq<char>) -> Seq<Seq<char>>
    decreases r.len(),
{
    if r.len() == 0 {
        Seq::<Seq<char>>::empty()
    } else if r.last().1.aliases.contains(reference) {
        alias_matches(r.drop_last(), reference).push(r.last().0)
    } else {
        alias_matches(r.drop_last(), reference)
    }
}

/// Whether a repository ID matches a reference loosely. A reference of two
/// segments, `owner/name`, matches an ID of at least three segments that
/// ends in them. A reference without a slash matches an ID whose last
/// segment it is. No other reference matches anything.
pub open spec fn fuzzy_match(key: Seq<char>, reference: Seq<char>) -> bool {
    let want = split(reference, '/');
    let have = split(key, '/');
    if want.len() == 2 {
        have.len() >= 3 && have[have.len() - 2] == want[0] && have[have.len() - 1] == want[1]
    } else if want.len() == 1 && reference.len() > 0 {
        have.last() == reference
    } else {
        false
    }
}

/// The IDs that match `reference` loosely, in registry order.
pub open spec fn fuzzy_matches(keys: Seq<Seq<char>>, reference: Seq<char>) -> Seq<Seq<char>>
    decreases keys.len(),
{
    if keys.len() == 0 {
        Seq::<Seq<char>>::empty()
    } else if fuzzy_match(keys.last(), reference) {
        fuzzy_matches(keys.drop_last(), reference).push(keys.last())
    } else {
        fuzzy_matches(keys.drop_last(), reference)
    }
}

/// The outcome of resolving a reference, as a value.
pub enum Resolution {
    Found(Seq<char>),
    Ambiguous(Seq<Seq<char>>),
    NotFound,
}

/// The outcome of resolving a reference.
#[derive(Debug)]
pub enum ResolveResult<'a> {
    /// The reference stands for this repository ID.
    Found(&'a str),
    /// The reference matches all of these IDs in the first layer that has a
    /// match; they are sorted.
    Ambiguous(Vec<&'a str>),
    /// Nothing matches.
    NotFound,
}

impl<'a> View for ResolveResult<'a> {
    type V = Resolution;

    open spec fn view(&self) -> Resolution {
        match self {
            ResolveResult::Found(id) => Resolution::Found(id@),
            ResolveResult::Ambiguous(ids) => Resolution::Ambiguous(ids.deep_view()),
            ResolveResult::NotFound => Resolution::NotFound,
        }
    }
}

/// What the matches of one layer resolve to: one match is found, none is
/// not found, and several are ambiguous and all reported, in dictionary
/// order.
pub open spec fn outcome_of(found: Seq<Seq<char>>) -> Resolution {
    if found.len() == 0 {
        Resolution::NotFound
    } else if found.len() == 1 {
        Resolution::Found(found[0])
    } else {
        Resolution::Ambiguous(sorted_listing(found))
    }
}

/// The resolution of `reference` in the registry `r`.
///
/// An ID that equals the reference wins. Next come the entries that list
/// the reference as an alias. Only where there is none are IDs matched
/// loosely. Within a layer a reference is never resolved silently: several
/// matches are ambiguous.
pub open spec fn resolution(r: Registry, reference: Seq<char>) -> Resolution {
    if has_key(r, reference) {
        Resolution::Found(reference)
    } else if alias_matches(r, reference).len() > 0 {
        outcome_of(alias_matches(r, reference))
    } else {
        outcome_of(fuzzy_matches(keys_of(r), reference))
    }
}

/// The ID that `reference` resolves to, when it resolves to exactly one.
pub open spec fn resolved(r: Registry, reference: Seq<char>) -> Option<Seq<char>> {
    match resolution(r, reference) {
        Resolution::Found(id) => Some(id),
        _ => None,
    }
}

/// The IDs whose entries list `reference` as an alias.
pub open spec fn alias_set(r: Registry, reference: Seq<char>) -> Set<Seq<char>> {
    Set::new(
        |k: Seq<char>|
            exists|i: int|
                0 <= i < r.len() && (#[trigger] r[i]).0 == k && r[i].1.aliases.contains(reference),
    )
}

/// The registered IDs that match `reference` loosely.
pub open spec fn fuzzy_set(r: Registry, reference: Seq<char>) -> Set<Seq<char>> {
    Set::new(|k: Seq<char>| has_key(r, k) && fuzzy_match(k, reference))
}

/// The matches of the first layer that has any: the ID equal to the
/// reference, else the IDs that list it as an alias, else the IDs that match
/// it loosely.
pub open spec fn first_layer(r: Registry, reference: Seq<char>) -> Set<Seq<char>> {
    if has_key(r, reference) {
        set![reference]
    } else if exists|k: Seq<char>| alias_set(r, reference).contains(k) {
        alias_set(r, reference)
    } else {
        fuzzy_set(r, reference)
    }
}

/// Each item comes strictly before every later one in dictionary order.
pub open spec fn strictly_ascending(ids: Seq<Seq<char>>) -> bool {
    forall|i: int, j: int| 0 <= i < j < ids.len() ==> lex_le(ids[i], ids[j]) && ids[i] != ids[j]
}

/// The alias matches are the IDs of the entries that list the alias, each
/// once where no ID is registered twice.
pub proof fn lemma_alias_matches(r: Registry, reference: Seq<char>)
    ensures
        alias_matches(r, reference).to_set() == alias_set(r, reference),
        forall|k: Seq<char>| #[trigger] alias_matches(r, reference).contains(k) ==> has_key(r, k),
        distinct_keys(r) ==> alias_matches(r, reference).no_duplicates(),
    decreases r.len(),
{
    let found = alias_matches(r, reference);
    if r.len() == 0 {
        assert(found.to_set() =~= alias_set(r, reference));
    } else {
        let init = r.drop_last();
        let prev = alias_matches(init, reference);
        lemma_alias_matches(init, reference);
        let listed = r.last().1.aliases.contains(reference);
        assert forall|k: Seq<char>| found.contains(k) implies has_key(r, k) by {
            let i = choose|i: int| 0 <= i < found.len() && found[i] == k;
            if i < prev.len() {
                assert(prev[i] == k);
                assert(prev.contains(k));
                let j = choose|j: int| 0 <= j < init.len() && (#[trigger] init[j]).0 == k;
                assert(r[j].0 == k);
            } else {
                assert(r[r.len() - 1].0 == k);
            }
        }
        assert forall|k: Seq<char>| found.to_set().contains(k) <==> alias_set(r, reference).contains(
            k,
        ) by {
            if found.contains(k) {
                let i = choose|i: int| 0 <= i < found.len() && found[i] == k;
                if i < prev.len() {
                    assert(prev[i] == k);
                    assert(prev.to_set().contains(k));
                    let j = choose|j: int|
                        0 <= j < init.len() && (#[trigger] init[j]).0 == k
                            && init[j].1.aliases.contains(reference);
                    assert(r[j].0 == k && r[j].1.aliases.contains(reference));
                } else {
                    assert(r[r.len() - 1].0 == k && listed);
                }
            }
            if alias_set(r, reference).contains(k) {
                let j = choose|j: int|
                    0 <= j < r.len() && (#[trigger] r[j]).0 == k && r[j].1.aliases.contains(
                        reference,
                    );
                if j < init.len() {
                    assert(init[j].0 == k && init[j].1.aliases.contains(reference));
                    assert(alias_set(init, reference).contains(k));
                    assert(prev.to_set().contains(k));
                    let i = choose|i: int| 0 <= i < prev.len() && prev[i] == k;
                    assert(found[i] == k);
                } else {
                    assert(found[found.len() - 1] == k);
                }
            }
        }
        assert(found.to_set() =~= alias_set(r, reference));
        if distinct_keys(r) {
            assert(distinct_keys(init)) by {
                assert forall|i: int, j: int|
                    0 <= i < init.len() && 0 <= j < init.len() && i != j implies (
                #[trigger] init[i]).0 != (#[trigger] init[j]).0 by {
                    assert(r[i].0 != r[j].0);
                }
            }
            if listed {
                assert forall|i: int| 0 <= i < prev.len() implies prev[i] != r.last().0 by {
                    assert(prev.contains(prev[i]));
                    let j = choose|j: int| 0 <= j < init.len() && (#[trigger] init[j]).0 == prev[i];
                    assert(r[j].0 != r[r.len() - 1].0);
                }
            }
        }
    }
}

/// The loose matches are the registered IDs that match, each once where no
/// ID is registered twice.
pub proof fn lemma_fuzzy_set(r: Registry, reference: Seq<char>)
    ensures
        fuzzy_matches(keys_of(r), reference).to_set() == fuzzy_set(r, reference),
        distinct_keys(r) ==> fuzzy_matches(keys_of(r), reference).no_duplicates(),
{
    let keys = keys_of(r);
    lemma_fuzzy_matches(keys, reference);
    assert forall|k: Seq<char>| keys.contains(k) <==> has_key(r, k) by {
        if keys.contains(k) {
            let i = choose|i: int| 0 <= i < keys.len() && keys[i] == k;
            assert(r[i].0 == k);
        }
        if has_key(r, k) {
            let i = choose|i: int| 0 <= i < r.len() && (#[trigger] r[i]).0 == k;
            assert(keys[i] == k);
        }
    }
    assert(fuzzy_matches(keys, reference).to_set() =~= fuzzy_set(r, reference));
    if distinct_keys(r) {
        assert(keys.no_duplicates()) by {
            assert forall|i: int, j: int|
                0 <= i < keys.len() && 0 <= j < keys.len() && i != j implies keys[i] != keys[j] by {
                assert(r[i].0 != r[j].0);
            }
        }
        lemma_fuzzy_distinct(keys, reference);
    }
}

proof fn lemma_fuzzy_distinct(keys: Seq<Seq<char>>, reference: Seq<char>)
    requires
        keys.no_duplicates(),
    ensures
        fuzzy_matches(keys, reference).no_duplicates(),
    decreases keys.len(),
{
    if keys.len() > 0 {
        let init = keys.drop_last();
        let prev = fuzzy_matches(init, reference);
        lemma_fuzzy_distinct(init, reference);
        lemma_fuzzy_matches(init, reference);
        assert forall|i: int| 0 <= i < prev.len() implies prev[i] != keys.last() by {
            assert(prev.contains(prev[i]));
            let j = choose|j: int| 0 <= j < init.len() && init[j] == prev[i];
            assert(keys[j] != keys[keys.len() - 1]);
        }
    }
}

/// What a layer without repetition resolves to, in terms of the set of its
/// matches: the one match, or all of them in strictly ascending order, or
/// nothing.
pub proof fn lemma_outcome_of(found: Seq<Seq<char>>)
    requires
        found.no_duplicates(),
    ensures
        match outcome_of(found) {
            Resolution::Found(id) => found.to_set() == set![id],
            Resolution::Ambiguous(ids) => ids.len() >= 2 && strictly_ascending(ids) && ids.to_set()
                == found.to_set(),
            Resolution::NotFound => found.to_set() == Set::<Seq<char>>::empty(),
        },
{
    broadcast use vstd::seq_lib::group_to_multiset_ensures;

    if found.len() == 0 {
        assert(found.to_set() =~= Set::<Seq<char>>::empty());
    } else if found.len() == 1 {
        assert forall|k: Seq<char>| found.to_set().contains(k) <==> set![found[0]].contains(k) by {
            if found.contains(k) {
                let i = choose|i: int| 0 <= i < found.len() && found[i] == k;
                assert(i == 0);
            }
            if k == found[0] {
                assert(found.contains(k));
            }
        }
        assert(found.to_set() =~= set![found[0]]);
    } else {
        let ids = sorted_listing(found);
        lemma_sorted_listing(found);
        found.lemma_multiset_has_no_duplicates();
        ids.lemma_multiset_has_no_duplicates_conv();
        assert forall|k: Seq<char>| ids.to_set().contains(k) <==> found.to_set().contains(k) by {
            assert(ids.contains(k) <==> ids.to_multiset().count(k) > 0);
            assert(found.contains(k) <==> found.to_multiset().count(k) > 0);
        }
        assert(ids.to_set() =~= found.to_set());
    }
}

/// Resolution returns the single match of the first layer that has one, and
/// never picks among several.
///
/// The layers are, in order: the ID equal to the reference, the IDs whose
/// entries list it as an alias, and the IDs that match it loosely. Where the
/// first layer that is not empty holds exactly one ID, that ID is found.
/// Where it holds several, the outcome is ambiguous and lists exactly those
/// IDs, in strictly ascending dictionary order. Where every layer is empty,
/// nothing is found.
pub proof fn lemma_resolution_unique(r: Registry, reference: Seq<char>)
    requires
        distinct_keys(r),
    ensures
        match resolution(r, reference) {
            Resolution::Found(id) => first_layer(r, reference) == set![id],
            Resolution::Ambiguous(ids) => ids.len() >= 2 && strictly_ascending(ids) && ids.to_set()
                == first_layer(r, reference),
            Resolution::NotFound => first_layer(r, reference) == Set::<Seq<char>>::empty(),
        },
{
    lemma_alias_matches(r, reference);
    lemma_fuzzy_set(r, reference);
    if !has_key(r, reference) {
        let a = alias_matches(r, reference);
        if a.len() > 0 {
            assert(a.to_set().contains(a[0])) by {
                assert(a.contains(a[0]));
            }
            lemma_outcome_of(a);
        } else {
            assert forall|k: Seq<char>| !alias_set(r, reference).contains(k) by {
                if a.to_set().contains(k) {
                    let i = choose|i: int| 0 <= i < a.len() && a[i] == k;
                }
            }
            lemma_outcome_of(fuzzy_matches(keys_of(r), reference));
        }
    }
}

/// Every loose match is a registered ID that matches, and every registered
/// ID that matches is among the loose matches.
pub proof fn lemma_fuzzy_matches(keys: Seq<Seq<char>>, reference: Seq<char>)
    ensures
        forall|k: Seq<char>| #[trigger]
            fuzzy_matches(keys, reference).contains(k) <==> keys.contains(k) && fuzzy_match(
                k,
                reference,
            ),
    decreases keys.len(),
{
    let found = fuzzy_matches(keys, reference);
    if keys.len() > 0 {
        let init = keys.drop_last();
        let prev = fuzzy_matches(init, reference);
        lemma_fuzzy_matches(init, reference);
        assert forall|k: Seq<char>| #[trigger]
            found.contains(k) <==> keys.contains(k) && fuzzy_match(k, reference) by {
            if found.contains(k) {
                let i = choose|i: int| 0 <= i < found.len() && found[i] == k;
                if i < prev.len() {
                    assert(prev[i] == k);
                    assert(prev.contains(k));
                    let j = choose|j: int| 0 <= j < init.len() && init[j] == k;
                    assert(keys[j] == k);
                } else {
                    assert(k == keys.last());
                    assert(keys[keys.len() - 1] == k);
                }
            }
            if keys.contains(k) && fuzzy_match(k, reference) {
                let j = choose|j: int| 0 <= j < keys.len() && keys[j] == k;
                if j < init.len() {
                    assert(init[j] == k);
                    assert(init.contains(k));
                    assert(fuzzy_matches(init, reference).contains(k));
                    let i = choose|i: int| 0 <= i < prev.len() && prev[i] == k;
                    assert(found[i] == k);
                } else {
                    assert(found[found.len() - 1] == k);
                }
            }
        }
    }
}

fn segments_match(key: &str, want: &Vec<String>, reference: &str) -> (r: bool)
    requires
        want.deep_view() == split(reference@, '/'),
    ensures
        r == fuzzy_match(key@, reference@),
{
    let have = split_str(key, '/');
    proof {
        lemma_split_len(key@, '/');
    }
    let n: usize = have.len();
    assert(have.deep_view()[n - 1] == have[n - 1]@);
    if want.len() == 2 {
        assert(want.deep_view()[0] == want[0]@ && want.deep_view()[1] == want[1]@);
        if n >= 3 {
            assert(have.deep_view()[n - 2] == have[n - 2]@);
            str_eq(have[n - 2].as_str(), want[0].as_str()) && str_eq(
                have[n - 1].as_str(),
                want[1].as_str(),
            )
        } else {
            false
        }
    } else if want.len() == 1 && reference.unicode_len() > 0 {
        str_eq(have[n - 1].as_str(), reference)
    } else {
        false
    }
}

fn lists_alias(entry: &RepoEntry, reference: &str) -> (r: bool)
    ensures
        r == entry@.aliases.contains(reference@),
{
    let mut j: usize = 0;
    while j < entry.aliases.len()
        invariant
            j <= entry.aliases.len(),
            forall|k: int| 0 <= k < j ==> entry@.aliases[k] != reference@,
        decreases entry.aliases.len() - j,
    {
        if str_eq(entry.aliases[j].as_str(), reference) {
            assert(entry@.aliases[j as int] == reference@);
            return true;
        }
        j += 1;
    }
    false
}

fn outcome<'a>(found: Vec<&'a str>) -> (r: ResolveResult<'a>)
    ensures
        r@ == outcome_of(found.deep_view()),
{
    if found.len() == 0 {
        ResolveResult::NotFound
    } else if found.len() == 1 {
        assert(found.deep_view()[0] == found[0]@);
        ResolveResult::Found(found[0])
    } else {
        ResolveResult::Ambiguous(sort_strs(found))
    }
}

impl Manifest {
    /// Whether `repo_id` is registered.
    pub fn has_repo(&self, repo_id: &str) -> (r: bool)
        ensures
            r == has_key(self@, repo_id@),
    {
        self.repos.contains_key(repo_id)
    }

    fn find_alias_matches<'a>(&'a self, reference: &str) -> (found: Vec<&'a str>)
        ensures
            found.deep_view() == alias_matches(self@, reference@),
    {
        let n = self.repos.len();
        let mut found: Vec<&'a str> = Vec::new();
        let mut i: usize = 0;
        let ghost all = self@;
        assert(all.take(0) == Seq::<(Seq<char>, RepoEntryView)>::empty());
        assert(found.deep_view() == Seq::<Seq<char>>::empty());
        while i < n
            invariant
                i <= n,
                n == self@.len(),
                all == self@,
                found.deep_view() == alias_matches(all.take(i as int), reference@),
            decreases n - i,
        {
            let key = self.repos.key_at(i);
            let entry = self.repos.entry_at(i);
            assert(all.take(i + 1).drop_last() == all.take(i as int));
            assert(all.take(i + 1).last() == all[i as int]);
            if lists_alias(entry, reference) {
                let ghost before = found.deep_view();
                found.push(key);
                assert(found.deep_view() == before.push(key@));
            }
            i += 1;
        }
        assert(all.take(n as int) == all);
        found
    }

    fn resolve_fuzzy<'a>(&'a self, reference: &str) -> (found: Vec<&'a str>)
        ensures
            found.deep_view() == fuzzy_matches(keys_of(self@), reference@),
    {
        let want = split_str(reference, '/');
        let n = self.repos.len();
        let mut found: Vec<&'a str> = Vec::new();
        let mut i: usize = 0;
        let ghost keys = keys_of(self@);
        assert(keys.take(0) == Seq::<Seq<char>>::empty());
        assert(found.deep_view() == Seq::<Seq<char>>::empty());
        while i < n
            invariant
                i <= n,
                n == self@.len(),
                keys == keys_of(self@),
                want.deep_view() == split(reference@, '/'),
                found.deep_view() == fuzzy_matches(keys.take(i as int), reference@),
            decreases n - i,
        {
            let key = self.repos.key_at(i);
            assert(keys.take(i + 1).drop_last() == keys.take(i as int));
            assert(keys.take(i + 1).last() == key@);
            if segments_match(key, &want, reference) {
                let ghost before = found.deep_view();
                found.push(key);
                assert(found.deep_view() == before.push(key@));
            }
            i += 1;
        }
        assert(keys.take(n as int) == keys);
        found
    }

    /// Resolves a reference to a repository ID, telling apart a reference
    /// that matches nothing from one that matches several repositories.
    pub fn resolve_with_details<'a>(&'a self, reference: &str) -> (r: ResolveResult<'a>)
        ensures
            r@ == resolution(self@, reference@),
    {
        if let Some(i) = self.repos.position(reference) {
            return ResolveResult::Found(self.repos.key_at(i));
        }
        let listed = self.find_alias_matches(reference);
        if listed.len() > 0 {
            return outcome(listed);
        }
        outcome(self.resolve_fuzzy(reference))
    }

    /// Resolves a reference to a repository ID: the ID itself, an alias, or
    /// a loose match by name or by owner and name. An ambiguous reference
    /// resolves to nothing.
    pub fn resolve_alias<'a>(&'a self, reference: &str) -> (r: Option<&'a str>)
        ensures
            match r {
                Some(id) => resolved(self@, reference@) == Some(id@),
                None => resolved(self@, reference@).is_none(),
            },
    {
        match self.resolve_with_details(reference) {
            ResolveResult::Found(id) => Some(id),
            ResolveResult::Ambiguous(_) => None,
            ResolveResult::NotFound => None,
        }
    }
}

} // verus!

verus! {

/// One worktree of a baum.
#[derive(Debug)]
pub struct WorktreeEntry {
    /// The logical branch, as the repository names it.
    pub branch: String,
    /// The directory of the worktree, relative to the container.
    pub path: String,
    /// The local tracking branch that the worktree checks out. Baums from
    /// before tracking branches have none.
    pub local_branch: Option<String>,
}

/// The value of a `WorktreeEntry`.
pub struct WorktreeEntryView {
    pub branch: Seq<char>,
    pub path: Seq<char>,
    pub local_branch: Option<Seq<char>>,
}

impl View for WorktreeEntry {
    type V = WorktreeEntryView;

    open spec fn view(&self) -> WorktreeEntryView {
        WorktreeEntryView {
            branch: self.branch@,
            path: self.path@,
            local_branch: self.local_branch.deep_view(),
        }
    }
}

impl DeepView for WorktreeEntry {
    type V = WorktreeEntryView;

    open spec fn deep_view(&self) -> WorktreeEntryView {
        self@
    }
}

impl Clone for WorktreeEntry {
    fn clone(&self) -> (r: Self)
        ensures
            r@ == self@,
    {
        WorktreeEntry {
            branch: self.branch.clone(),
            path: self.path.clone(),
            local_branch: clone_opt(&self.local_branch),
        }
    }
}

/// The descriptor of a baum: which repository it projects and which
/// worktrees it holds.
#[derive(Debug)]
pub struct BaumManifest {
    /// The baum's ID, six hexadecimal digits. A baum from before IDs has
    /// none until it is next changed.
    pub id: Option<String>,
    /// The repository that this baum projects.
    pub repo_id: String,
    /// The worktrees, in the order in which they were added.
    pub worktrees: Vec<WorktreeEntry>,
}

/// The value of a `Baum`.
pub struct BaumView {
    pub id: Option<Seq<char>>,
    pub repo_id: Seq<char>,
    pub worktrees: Seq<WorktreeEntryView>,
}

impl View for BaumManifest {
    type V = BaumView;

    open spec fn view(&self) -> BaumView {
        BaumView {
            id: self.id.deep_view(),
            repo_id: self.repo_id@,
            worktrees: self.worktrees.deep_view(),
        }
    }
}

impl DeepView for BaumManifest {
    type V = BaumView;

    open spec fn deep_view(&self) -> BaumView {
        self@
    }
}

/// The first position at or after `from` whose worktree is on `branch`.
pub open spec fn branch_index(worktrees: Seq<WorktreeEntryView>, branch: Seq<char>, from: int)
    -> Option<int>
    decreases worktrees.len() - from,
{
    if from < 0 || from >= worktrees.len() {
        None
    } else if worktrees[from].branch == branch {
        Some(from)
    } else {
        branch_index(worktrees, branch, from + 1)
    }
}

impl BaumView {
    /// Whether some worktree is on `branch`.
    pub open spec fn has_branch(self, branch: Seq<char>) -> bool {
        exists|i: int| 0 <= i < self.worktrees.len() && (#[trigger] self.worktrees[i]).branch == branch
    }

    /// The descriptor with one more worktree at the end.
    pub open spec fn with_worktree(self, entry: WorktreeEntryView) -> BaumView {
        BaumView { worktrees: self.worktrees.push(entry), ..self }
    }
}

/// A copy of `entries`.
pub fn clone_worktrees(entries: &Vec<WorktreeEntry>) -> (out: Vec<WorktreeEntry>)
    ensures
        out.deep_view() == entries.deep_view(),
{
    let mut out: Vec<WorktreeEntry> = Vec::new();
    let mut i: usize = 0;
    while i < entries.len()
        invariant
            i <= entries.len(),
            out.deep_view() == entries.deep_view().take(i as int),
        decreases entries.len() - i,
    {
        let ghost done = out.deep_view();
        let e = entries[i].clone();
        out.push(e);
        assert(out.deep_view() == done.push(e@));
        assert(entries.deep_view().take(i + 1) == entries.deep_view().take(i as int).push(
            entries.deep_view()[i as int],
        ));
        i += 1;
    }
    assert(entries.deep_view().take(entries.len() as int) == entries.deep_view());
    out
}

impl Clone for BaumManifest {
    fn clone(&self) -> (r: Self)
        ensures
            r@ == self@,
    {
        BaumManifest {
            id: clone_opt(&self.id),
            repo_id: self.repo_id.clone(),
            worktrees: clone_worktrees(&self.worktrees),
        }
    }
}

impl BaumManifest {
    /// A descriptor for `repo_id` without an ID and without worktrees.
    pub fn new(repo_id: &str) -> (out: Self)
        ensures
            out@ == (BaumView { id: None, repo_id: repo_id@, worktrees: Seq::empty() }),
    {
        let out = BaumManifest {
            id: None,
            repo_id: from_chars(&to_chars(repo_id)),
            worktrees: Vec::new(),
        };
        assert(out.worktrees.deep_view() == Seq::<WorktreeEntryView>::empty());
        out
    }

    /// Adds a worktree that checks out the remote branch directly, as baums
    /// did before tracking branches.
    pub fn add_worktree(&mut self, branch: &str, path: &str)
        ensures
            final(self)@ == old(self)@.with_worktree(
                WorktreeEntryView { branch: branch@, path: path@, local_branch: None },
            ),
    {
        let ghost before = self.worktrees.deep_view();
        let entry = WorktreeEntry {
            branch: from_chars(&to_chars(branch)),
            path: from_chars(&to_chars(path)),
            local_branch: None,
        };
        self.worktrees.push(entry);
        assert(self.worktrees.deep_view() == before.push(entry@));
    }

    /// Adds a worktree together with the local tracking branch that it
    /// checks out.
    pub fn add_worktree_with_local(&mut self, branch: &str, path: &str, local_branch: &str)
        ensures
            final(self)@ == old(self)@.with_worktree(
                WorktreeEntryView {
                    branch: branch@,
                    path: path@,
                    local_branch: Some(local_branch@),
                },
            ),
    {
        let ghost before = self.worktrees.deep_view();
        let entry = WorktreeEntry {
            branch: from_chars(&to_chars(branch)),
            path: from_chars(&to_chars(path)),
            local_branch: Some(from_chars(&to_chars(local_branch))),
        };
        self.worktrees.push(entry);
        assert(self.worktrees.deep_view() == before.push(entry@));
    }

    /// The baum's ID; a baum without one is given a fresh ID that is not in
    /// `existing_ids`. An ID that is there is never replaced. Where no ID
    /// can be generated the descriptor stays as it is.
    pub fn ensure_id(&mut self, existing_ids: &StringSet) -> (r: Result<String, IdError>)
        ensures
            old(self)@.id matches Some(id) ==> r.is_ok() && r.unwrap()@ == id && final(self)@
                == old(self)@,
            old(self)@.id.is_none() ==> match r {
                Ok(id) => is_baum_id(id@) && !existing_ids@.contains(id@) && final(self)@ == (
                BaumView { id: Some(id@), ..old(self)@ }),
                Err(_) => final(self)@ == old(self)@,
            },
    {
        match &self.id {
            Some(id) => Ok(id.clone()),
            None => {
                match generate_baum_id(existing_ids) {
                    Ok(id) => {
                        self.id = Some(id.clone());
                        Ok(id)
                    },
                    Err(e) => Err(e),
                }
            },
        }
    }

    /// Where the worktree of `branch` stands, if there is one.
    pub fn position_of(&self, branch: &str) -> (r: Option<usize>)
        ensures
            match r {
                Some(i) => i < self@.worktrees.len() && self@.worktrees[i as int].branch == branch@
                    && branch_index(self@.worktrees, branch@, 0) == Some(i as int) && forall|
                    j: int,
                | 0 <= j < i ==> self@.worktrees[j].branch != branch@,
                None => !self@.has_branch(branch@) && branch_index(
                    self@.worktrees,
                    branch@,
                    0,
                ).is_none(),
            },
    {
        let mut i: usize = 0;
        while i < self.worktrees.len()
            invariant
                i <= self.worktrees.len(),
                forall|j: int| 0 <= j < i ==> self@.worktrees[j].branch != branch@,
                branch_index(self@.worktrees, branch@, 0) == branch_index(
                    self@.worktrees,
                    branch@,
                    i as int,
                ),
            decreases self.worktrees.len() - i,
        {
            if str_eq(self.worktrees[i].branch.as_str(), branch) {
                assert(self@.worktrees[i as int] == self.worktrees[i as int]@);
                return Some(i);
            }
            assert(self@.worktrees[i as int] == self.worktrees[i as int]@);
            i += 1;
        }
        None
    }

    /// Whether some worktree is on `branch`.
    pub fn has_branch(&self, branch: &str) -> (r: bool)
        ensures
            r == self@.has_branch(branch@),
    {
        self.position_of(branch).is_some()
    }

    /// Takes the worktree at `index` out of the descriptor.
    pub fn remove_worktree(&mut self, index: usize) -> (entry: WorktreeEntry)
        requires
            index < old(self)@.worktrees.len(),
        ensures
            entry@ == old(self)@.worktrees[index as int],
            final(self)@ == (BaumView {
                worktrees: old(self)@.worktrees.remove(index as int),
                ..old(self)@
            }),
    {
        let ghost before = self.worktrees.deep_view();
        let entry = self.worktrees.remove(index);
        assert(self.worktrees.deep_view() == before.remove(index as int));
        entry
    }
}

} // verus!
