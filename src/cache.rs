//! The reading cache: a single cell holding the latest full snapshot.
//!
//! A publish replaces the whole snapshot in one step, so a read returns a
//! snapshot exactly as some publish stored it, never a mix of two ticks.
//! Shared access (many readers, one writer) is a lock around this value.

use vstd::prelude::*;
use crate::hardware::{zero_snapshot, SensorSnapshot};

verus! {

/// The latest published snapshot, with the ghost record of every publish.
pub struct ReadingCache {
    latest: SensorSnapshot,
    published: Ghost<Seq<SensorSnapshot>>,
}

impl ReadingCache {
    /// The snapshot a read returns now.
    pub closed spec fn latest(&self) -> SensorSnapshot {
        self.latest
    }

    /// Every snapshot published so far, oldest first.
    pub closed spec fn history(&self) -> Seq<SensorSnapshot> {
        self.published@
    }

    /// The cache holds the zeroed snapshot before the first publish, and
    /// the last published snapshot after it.
    pub open spec fn wf(&self) -> bool {
        if self.history().len() == 0 {
            self.latest() == zero_snapshot()
        } else {
            self.latest() == self.history().last()
        }
    }

    /// A cache that has seen no publish.
    pub fn new() -> (r: ReadingCache)
        ensures
            r.wf(),
            r.history().len() == 0,
            r.latest() == zero_snapshot(),
    {
        ReadingCache { latest: SensorSnapshot::zeroed(), published: Ghost(Seq::empty()) }
    }

    /// Replaces the stored snapshot with `snapshot`, as a whole.
    pub fn publish(&mut self, snapshot: SensorSnapshot)
        requires
            old(self).wf(),
        ensures
            final(self).wf(),
            final(self).latest() == snapshot,
            final(self).history() == old(self).history().push(snapshot),
    {
        self.latest = snapshot;
        self.published = Ghost(self.published@.push(snapshot));
    }

    /// A copy of the stored snapshot.
    pub fn read(&self) -> (r: SensorSnapshot)
        ensures
            r == self.latest(),
    {
        self.latest
    }
}

/// A read never observes a partly updated snapshot: what it returns is the
/// zeroed snapshot before any publish, and afterwards one snapshot exactly
/// as a single publish stored it.
pub proof fn lemma_read_is_whole(c: ReadingCache)
    requires
        c.wf(),
    ensures
        c.history().len() == 0 ==> c.latest() == zero_snapshot(),
        c.history().len() > 0 ==> exists|i: int|
            0 <= i < c.history().len() && #[trigger] c.history()[i] == c.latest(),
{
    if c.history().len() > 0 {
        let i = c.history().len() - 1;
        assert(c.history()[i] == c.latest());
    }
}

} // verus!
