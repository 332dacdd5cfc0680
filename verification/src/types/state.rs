//! What a workspace remembers between two syncs.

use vstd::prelude::*;
use crate::split::clone_opt;
use crate::text::{from_chars, to_chars};

verus! {

/// The sync state: the commit of the outer repository at the last sync that
/// succeeded, if there was one.
#[derive(Debug)]
pub struct SyncState {
    pub last_sync: Option<String>,
}

impl View for SyncState {
    type V = Option<Seq<char>>;

    open spec fn view(&self) -> Option<Seq<char>> {
        self.last_sync.deep_view()
    }
}

impl DeepView for SyncState {
    type V = Option<Seq<char>>;

    open spec fn deep_view(&self) -> Option<Seq<char>> {
        self@
    }
}

impl Default for SyncState {
    fn default() -> (r: Self)
        ensures
            r@.is_none(),
    {
        SyncState { last_sync: None }
    }
}

impl Clone for SyncState {
    fn clone(&self) -> (r: Self)
        ensures
            r@ == self@,
    {
        SyncState { last_sync: clone_opt(&self.last_sync) }
    }
}

impl SyncState {
    /// Records `commit` as the commit of the last sync.
    pub fn update_last_sync(&mut self, commit: &str)
        ensures
            final(self)@ == Some(commit@),
    {
        self.last_sync = Some(from_chars(&to_chars(commit)));
    }
}

} // verus!
