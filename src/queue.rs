//! The per-guild queue store: entries in enqueue order, each holding its
//! track once resolved, and a note of whether the head has been started.
use vstd::prelude::*;
use crate::track::TrackMetadata;

verus! {

/// A queued track. `track` is `None` while its query is still being
/// resolved; the entry holds its place in the queue meanwhile.
pub struct QueueEntry {
    /// Identifies the entry and, once playing, the transport's track.
    pub handle: u64,
    pub track: Option<TrackMetadata>,
}

/// Handles grow strictly from head to tail.
pub open spec fn handles_increasing(s: Seq<QueueEntry>) -> bool {
    forall|i: int, j: int| 0 <= i < j < s.len() ==> s[i].handle < s[j].handle
}

/// Entry `i` of `s` is the unresolved entry with `handle`.
pub open spec fn is_pending_at(s: Seq<QueueEntry>, i: int, handle: u64) -> bool {
    0 <= i < s.len() && s[i].handle == handle && s[i].track is None
}

pub struct TrackQueue {
    entries: Vec<QueueEntry>,
    head_started: bool,
    next_handle: u64,
}

impl View for TrackQueue {
    type V = Seq<QueueEntry>;

    closed spec fn view(&self) -> Seq<QueueEntry> {
        self.entries@
    }
}

impl TrackQueue {
    /// Whether the head entry has been handed to the transport to play.
    pub closed spec fn started(&self) -> bool {
        self.head_started
    }

    /// The handle the next reserved entry will get.
    pub closed spec fn next(&self) -> u64 {
        self.next_handle
    }

    pub closed spec fn wf(&self) -> bool {
        &&& handles_increasing(self.entries@)
        &&& forall|i: int| 0 <= i < self.entries@.len() ==> self.entries@[i].handle
            < self.next_handle
        &&& self.head_started ==> self.entries@.len() > 0 && self.entries@[0].track is Some
    }

    /// A well-formed queue's handles grow from head to tail and stay below `next()`.
    pub proof fn lemma_handles(&self)
        requires
            self.wf(),
        ensures
            handles_increasing(self@),
            forall|i: int| 0 <= i < self@.len() ==> self@[i].handle < self.next(),
    {
    }

    /// An empty queue.
    pub fn new() -> (r: TrackQueue)
        ensures
            r.wf(),
            r@ == Seq::<QueueEntry>::empty(),
            !r.started(),
            r.next() == 0,
    {
        TrackQueue { entries: Vec::new(), head_started: false, next_handle: 0 }
    }

    pub fn len(&self) -> (r: usize)
        ensures
            r == self@.len(),
    {
        self.entries.len()
    }

    pub fn is_empty(&self) -> (r: bool)
        ensures
            r == (self@.len() == 0),
    {
        self.entries.len() == 0
    }

    /// A snapshot of the queue in order, head first.
    pub fn list(&self) -> (r: &Vec<QueueEntry>)
        ensures
            r@ == self@,
    {
        &self.entries
    }

    /// Whether the head has been started.
    pub fn head_started(&self) -> (r: bool)
        requires
            self.wf(),
        ensures
            r == self.started(),
            r ==> self@.len() > 0 && self@[0].track is Some,
    {
        self.head_started
    }

    /// Appends an unresolved entry at the tail and returns its handle.
    /// `None`, with the queue unchanged, once handles have run out.
    pub fn reserve(&mut self) -> (r: Option<u64>)
        requires
            old(self).wf(),
        ensures
            final(self).wf(),
            final(self).started() == old(self).started(),
            old(self).next() == u64::MAX ==> r is None && *final(self) == *old(self),
            old(self).next() < u64::MAX ==> r == Some(old(self).next()) && final(self)@ == old(
                self,
            )@.push(QueueEntry { handle: old(self).next(), track: None }) && final(self).next()
                == old(self).next() + 1,
    {
        if self.next_handle == u64::MAX {
            return None;
        }
        let h = self.next_handle;
        self.entries.push(QueueEntry { handle: h, track: None });
        self.next_handle = h + 1;
        Some(h)
    }

    /// Fills in the track of the unresolved entry `handle`, in place.
    /// Returns false, changing nothing, when no such entry is queued.
    pub fn fill(&mut self, handle: u64, track: TrackMetadata) -> (r: bool)
        requires
            old(self).wf(),
        ensures
            final(self).wf(),
            final(self).started() == old(self).started(),
            final(self).next() == old(self).next(),
            r == exists|i: int| is_pending_at(old(self)@, i, handle),
            r ==> exists|i: int|
                is_pending_at(old(self)@, i, handle) && final(self)@ == old(self)@.update(
                    i,
                    QueueEntry { handle, track: Some(track) },
                ),
            !r ==> *final(self) == *old(self),
    {
        let n = self.entries.len();
        let mut i: usize = 0;
        while i < n
            invariant
                *self == *old(self),
                self.wf(),
                n == self.entries@.len(),
                i <= n,
                forall|j: int| 0 <= j < i ==> !is_pending_at(self.entries@, j, handle),
            decreases n - i,
        {
            if self.entries[i].handle == handle && self.entries[i].track.is_none() {
                let ghost before = self.entries@;
                let e = QueueEntry { handle, track: Some(track) };
                let ghost ge = e;
                self.entries.set(i, e);
                assert(before == old(self)@);
                assert(is_pending_at(old(self)@, i as int, handle));
                assert(self.entries@ =~= before.update(i as int, ge));
                assert forall|a: int, b: int|
                    0 <= a < b < self.entries@.len() implies self.entries@[a].handle
                    < self.entries@[b].handle by {
                    assert(before[a].handle < before[b].handle);
                }
                return true;
            }
            i = i + 1;
        }
        false
    }

    /// Drops the unresolved entry `handle` (its resolution failed).
    /// Returns false, changing nothing, when no such entry is queued.
    pub fn discard(&mut self, handle: u64) -> (r: bool)
        requires
            old(self).wf(),
        ensures
            final(self).wf(),
            final(self).started() == old(self).started(),
            final(self).next() == old(self).next(),
            r == exists|i: int| is_pending_at(old(self)@, i, handle),
            r ==> exists|i: int|
                is_pending_at(old(self)@, i, handle) && final(self)@ == old(self)@.remove(i),
            !r ==> *final(self) == *old(self),
    {
        let n = self.entries.len();
        let mut i: usize = 0;
        while i < n
            invariant
                *self == *old(self),
                self.wf(),
                n == self.entries@.len(),
                i <= n,
                forall|j: int| 0 <= j < i ==> !is_pending_at(self.entries@, j, handle),
            decreases n - i,
        {
            if self.entries[i].handle == handle && self.entries[i].track.is_none() {
                let ghost before = self.entries@;
                assert(before == old(self)@);
                assert(is_pending_at(old(self)@, i as int, handle));
                self.entries.remove(i);
                assert(self.entries@ =~= before.remove(i as int));
                assert forall|a: int, b: int|
                    0 <= a < b < self.entries@.len() implies self.entries@[a].handle
                    < self.entries@[b].handle by {
                    if a < i {
                        if b < i {
                            assert(before[a].handle < before[b].handle);
                        } else {
                            assert(before[a].handle < before[b + 1].handle);
                        }
                    } else {
                        assert(before[a + 1].handle < before[b + 1].handle);
                    }
                }
                assert forall|a: int| 0 <= a < self.entries@.len() implies self.entries@[a].handle
                    < self.next_handle by {
                    if a >= i {
                        assert(before[a + 1].handle < self.next_handle);
                    }
                }
                return true;
            }
            i = i + 1;
        }
        false
    }

    /// Removes the head, if any, and returns it; the new head is not yet started.
    pub fn advance(&mut self) -> (r: Option<QueueEntry>)
        requires
            old(self).wf(),
        ensures
            final(self).wf(),
            !final(self).started(),
            final(self).next() == old(self).next(),
            old(self)@.len() == 0 ==> r is None && final(self)@ == old(self)@,
            old(self)@.len() > 0 ==> r == Some(old(self)@[0]) && final(self)@ == old(
                self,
            )@.drop_first(),
    {
        self.head_started = false;
        if self.entries.len() == 0 {
            return None;
        }
        let ghost before = self.entries@;
        let e = self.entries.remove(0);
        assert forall|a: int, b: int|
            0 <= a < b < self.entries@.len() implies self.entries@[a].handle
            < self.entries@[b].handle by {
            assert(before[a + 1].handle < before[b + 1].handle);
        }
        assert(self.entries@ =~= before.drop_first());
        Some(e)
    }

    /// Drops every entry.
    pub fn clear(&mut self)
        requires
            old(self).wf(),
        ensures
            final(self).wf(),
            final(self)@ == Seq::<QueueEntry>::empty(),
            !final(self).started(),
            final(self).next() == old(self).next(),
    {
        self.entries.clear();
        self.head_started = false;
    }

    /// When the head is resolved and not yet started, marks it started and
    /// returns its handle: the transport is to play it now. Otherwise
    /// returns `None` and changes nothing. Nothing else in the queue ever
    /// asks for playback.
    pub fn start_due(&mut self) -> (r: Option<u64>)
        requires
            old(self).wf(),
        ensures
            final(self).wf(),
            final(self)@ == old(self)@,
            final(self).next() == old(self).next(),
            (!old(self).started() && old(self)@.len() > 0 && old(self)@[0].track is Some) ==> r
                == Some(old(self)@[0].handle) && final(self).started(),
            !(!old(self).started() && old(self)@.len() > 0 && old(self)@[0].track is Some) ==> r
                is None && *final(self) == *old(self),
    {
        if !self.head_started && self.entries.len() > 0 && self.entries[0].track.is_some() {
            self.head_started = true;
            Some(self.entries[0].handle)
        } else {
            None
        }
    }

    /// The entry now playing: the head, when the transport reports the
    /// head's handle as its active track.
    pub fn current(&self, playing: Option<u64>) -> (r: Option<&QueueEntry>)
        ensures
            (self@.len() > 0 && playing == Some(self@[0].handle)) ==> r == Some(&self@[0]),
            !(self@.len() > 0 && playing == Some(self@[0].handle)) ==> r is None,
    {
        match playing {
            Some(h) => {
                if self.entries.len() > 0 && self.entries[0].handle == h {
                    Some(&self.entries[0])
                } else {
                    None
                }
            },
            None => None,
        }
    }
}

} // verus!
