//! The lockstep core: one input packet exchanged per tick.
//!
//! The synchronizer builds the local packet for the current tick, and
//! matches it against the remote packet for the same tick.  Remote arrivals
//! go through a small bounded pending buffer; ticks are committed strictly
//! in order, one by one, with no duplicate and no skipped tick.  A checksum
//! disagreement for a tick is a desync and stops the match at that tick.

use vstd::prelude::*;
use crate::packet::{spec_checksums_agree, InputPacket};

verus! {

/// What became of a remote packet handed to the synchronizer.
#[derive(Clone, Copy, Debug, PartialEq, Eq)]
pub enum PushResult {
    /// Queued; it is the next tick the buffer was waiting for.
    Accepted,
    /// A packet for an already-resolved or already-buffered tick; dropped.
    Discarded,
    /// A tick from the future that would leave a gap; the ordered transport
    /// never produces this, so it is a protocol error.
    OutOfOrder,
    /// The bounded buffer is full; the peers' tick rates diverged more than
    /// the buffer absorbs.
    BufferFull,
}

/// The result of asking for this tick's resolved packet pair.
#[derive(Clone, Copy, Debug, PartialEq, Eq)]
pub enum ResolveResult {
    /// Both sides' packets for the tick matched; the pair is committed and
    /// the synchronizer advanced to the next tick.
    Resolved { local: InputPacket, remote: InputPacket },
    /// The remote packet has not arrived yet; the caller may wait, bounded.
    NotReady,
    /// Both packets carry checksums and they differ: the peers' game states
    /// diverged at this tick.  Nothing is committed.
    Desync { tick: u32 },
}

/// The per-tick packet exchange state of one peer.
pub struct Synchronizer {
    /// The tick to be resolved next; local packets are built for this tick.
    pub next_tick: u32,
    /// Remote packets for ticks not yet resolved, in tick order with no gap.
    pub pending: Vec<InputPacket>,
    /// Bound on the pending buffer: a handful of ticks of jitter.
    pub capacity: usize,
    /// The tick a stall has already been raised for, so a stalled tick is
    /// reported exactly once however often the caller re-polls.
    pub stalled_tick: Option<u32>,
}

impl Synchronizer {
    /// The buffer holds exactly the remote packets for the ticks directly
    /// after `next_tick`, in order: packet `i` is for tick `next_tick + i`.
    pub open spec fn wf(self) -> bool {
        &&& self.capacity >= 1
        &&& self.pending@.len() <= self.capacity
        &&& forall|i: int|
            0 <= i < self.pending@.len() ==> (#[trigger] self.pending@[i]).tick == self.next_tick
                + i
    }

    /// A synchronizer at tick 0 with an empty buffer.
    pub fn new(capacity: usize) -> (r: Synchronizer)
        requires
            capacity >= 1,
        ensures
            r.wf(),
            r.next_tick == 0,
            r.pending@.len() == 0,
            r.capacity == capacity,
            r.stalled_tick is None,
    {
        Synchronizer { next_tick: 0, pending: Vec::new(), capacity, stalled_tick: None }
    }

    /// Build the local input packet for the current tick.  The packet
    /// carries exactly the tick it will be resolved at.
    pub fn local_packet(&self, input_bits: u16, checksum: Option<u32>, rng_draw: Option<u32>) -> (r:
        InputPacket)
        ensures
            r == (InputPacket { tick: self.next_tick, input_bits, checksum, rng_draw }),
    {
        InputPacket { tick: self.next_tick, input_bits, checksum, rng_draw }
    }

    /// What `push_remote` answers for a given packet.
    pub open spec fn spec_push_result(self, p: InputPacket) -> PushResult {
        let expected = self.next_tick + self.pending@.len();
        if (p.tick as int) < expected {
            PushResult::Discarded
        } else if (p.tick as int) > expected {
            PushResult::OutOfOrder
        } else if self.pending@.len() >= self.capacity {
            PushResult::BufferFull
        } else {
            PushResult::Accepted
        }
    }

    /// Take in a remote packet.  Exactly the packet for the first tick the
    /// buffer is missing is accepted; an earlier tick is a duplicate and is
    /// discarded; a later tick or a full buffer is an error.  Nothing else
    /// about the synchronizer changes.
    pub fn push_remote(&mut self, p: InputPacket) -> (r: PushResult)
        requires
            old(self).wf(),
        ensures
            final(self).wf(),
            r == old(self).spec_push_result(p),
            final(self).next_tick == old(self).next_tick,
            final(self).capacity == old(self).capacity,
            final(self).stalled_tick == old(self).stalled_tick,
            r is Accepted ==> final(self).pending@ == old(self).pending@.push(p),
            !(r is Accepted) ==> final(self).pending@ == old(self).pending@,
    {
        let expected_lo: u32 = self.next_tick;
        let len: usize = self.pending.len();
        proof {
            // `pending` never wraps the 32-bit tick space: its last entry's
            // tick is `next_tick + len - 1`, a u32.
            if self.pending@.len() > 0 {
                assert(self.pending@[self.pending@.len() - 1].tick == self.next_tick
                    + self.pending@.len() - 1);
            }
        }
        let expected: u64 = (expected_lo as u64) + (len as u64);
        if (p.tick as u64) < expected {
            PushResult::Discarded
        } else if (p.tick as u64) > expected {
            PushResult::OutOfOrder
        } else if len >= self.capacity {
            PushResult::BufferFull
        } else {
            self.pending.push(p);
            PushResult::Accepted
        }
    }

    /// Resolve the current tick against `local`, the packet built for it.
    ///
    /// With no remote packet buffered the caller gets `NotReady` and decides
    /// how long to keep waiting.  With one present, a checksum disagreement
    /// is a desync at this tick and commits nothing; otherwise the pair is
    /// committed: the synchronizer advances by exactly one tick, forgets the
    /// matched packet, and clears any stall mark.
    pub fn try_resolve(&mut self, local: InputPacket) -> (r: ResolveResult)
        requires
            old(self).wf(),
            local.tick == old(self).next_tick,
            old(self).next_tick < 0xFFFF_FFFFu32,
        ensures
            final(self).wf(),
            final(self).capacity == old(self).capacity,
            match r {
                ResolveResult::NotReady => {
                    &&& old(self).pending@.len() == 0
                    &&& *final(self) == *old(self)
                },
                ResolveResult::Desync { tick } => {
                    &&& old(self).pending@.len() > 0
                    &&& !spec_checksums_agree(local, old(self).pending@[0])
                    &&& tick == old(self).next_tick
                    &&& *final(self) == *old(self)
                },
                ResolveResult::Resolved { local: l, remote } => {
                    &&& old(self).pending@.len() > 0
                    &&& spec_checksums_agree(local, old(self).pending@[0])
                    &&& l == local
                    &&& remote == old(self).pending@[0]
                    &&& remote.tick == local.tick
                    &&& final(self).next_tick == old(self).next_tick + 1
                    &&& final(self).pending@ == old(self).pending@.drop_first()
                    &&& final(self).stalled_tick is None
                },
            },
    {
        if self.pending.len() == 0 {
            ResolveResult::NotReady
        } else {
            let remote = self.pending[0];
            if !local.checksums_agree(&remote) {
                ResolveResult::Desync { tick: self.next_tick }
            } else {
                self.pending.remove(0);
                self.next_tick = self.next_tick + 1;
                self.stalled_tick = None;
                assert(self.pending@ =~= old(self).pending@.drop_first());
                ResolveResult::Resolved { local, remote }
            }
        }
    }

    /// Record that the bounded wait for the current tick's remote packet
    /// expired.  Returns whether this is the first report for this tick:
    /// `true` exactly once per stalled tick, however often the caller polls
    /// again while still waiting.
    pub fn note_stall(&mut self) -> (r: bool)
        ensures
            r == (old(self).stalled_tick != Some(old(self).next_tick)),
            final(self).stalled_tick == Some(old(self).next_tick),
            final(self).next_tick == old(self).next_tick,
            final(self).pending@ == old(self).pending@,
            final(self).capacity == old(self).capacity,
            old(self).wf() ==> final(self).wf(),
    {
        let first = match self.stalled_tick {
            Some(t) => t != self.next_tick,
            None => true,
        };
        self.stalled_tick = Some(self.next_tick);
        first
    }
}

/// A stall is raised to the caller exactly once per stalled tick: a second
/// report for the same tick, with no tick resolved in between, answers
/// `false`.
pub proof fn lemma_stall_raised_once(s1: Synchronizer, s2: Synchronizer)
    requires
        // `s2` is `s1` after one `note_stall` call
        s2.stalled_tick == Some(s1.next_tick),
        s2.next_tick == s1.next_tick,
    ensures
        // what a second `note_stall` on `s2` must answer
        (s2.stalled_tick != Some(s2.next_tick)) == false,
{
}

} // verus!
