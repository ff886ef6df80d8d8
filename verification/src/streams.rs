//! The streams that were opened in raw mode on behalf of the player.

use vstd::hash_set::StringHashSet;
use vstd::prelude::*;

verus! {

/// The ids of the streams that were opened in raw mode on behalf of the player.
pub struct RawStreams {
    ids: StringHashSet,
}

impl View for RawStreams {
    type V = Set<Seq<char>>;

    closed spec fn view(&self) -> Set<Seq<char>> {
        self.ids@
    }
}

impl RawStreams {
    /// No streams yet.
    pub fn new() -> (streams: RawStreams)
        ensures
            streams@ == Set::<Seq<char>>::empty(),
    {
        RawStreams { ids: StringHashSet::new() }
    }

    /// Whether the stream `id` was opened in raw mode.
    pub fn contains(&self, id: &str) -> (found: bool)
        ensures
            found == self@.contains(id@),
    {
        self.ids.contains(id)
    }

    /// Notes that the stream `id` was opened in raw mode.
    pub fn insert(&mut self, id: String)
        ensures
            final(self)@ == old(self)@.insert(id@),
    {
        self.ids.insert(id);
    }

    /// Forgets the stream `id`.
    pub fn remove(&mut self, id: &str)
        ensures
            final(self)@ == old(self)@.remove(id@),
    {
        self.ids.remove(id);
    }
}

} // verus!
