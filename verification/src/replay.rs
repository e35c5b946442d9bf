//! The replay log: every resolved tick of a match, recorded as it happens.
//!
//! A record enters the log only once the synchronizer has matched the local
//! and remote packets for its tick, so the log holds exactly the committed
//! ticks: tick `i` is record `i`, with no duplicate and no gap.  On playback
//! the recorded remote packets are fed back through the same synchronizer
//! interface in place of a live peer, which reproduces the match.

use vstd::prelude::*;
use crate::packet::{spec_checksums_agree, InputPacket};
use crate::round::Outcome;
use crate::sync::{ResolveResult, Synchronizer};

verus! {

/// One committed tick: the matched pair of packets.
#[derive(Clone, Copy, Debug, PartialEq, Eq)]
pub struct ReplayRecord {
    pub tick: u32,
    pub local: InputPacket,
    pub remote: InputPacket,
}

/// What identifies the game build a replay was recorded against.
#[derive(Clone, Copy, Debug, PartialEq, Eq)]
pub struct GameIdentity {
    pub rom_code: [u8; 4],
    pub revision: u8,
    pub rom_crc32: u32,
}

/// The replay metadata: game identity, shared RNG seed, when and in which
/// round of the session the match ran, the initial emulator snapshot, and
/// how the match ended (set at finalization).
pub struct ReplayHeader {
    pub game: GameIdentity,
    pub seed: u32,
    /// Milliseconds since the epoch at round start.
    pub ts: u64,
    /// Which round of the session this replay records.
    pub round: u32,
    /// The session's link code, as raw bytes.
    pub link_code: Vec<u8>,
    /// The full machine snapshot captured when the round became live.
    pub snapshot: Vec<u8>,
    /// How the match ended; `None` while recording is still under way.
    pub outcome: Option<Outcome>,
}

/// An append-only log of resolved ticks plus its header.
pub struct ReplayLog {
    pub header: ReplayHeader,
    pub records: Vec<ReplayRecord>,
}

/// The mathematical content of a header: byte fields as sequences and the
/// game identity flattened.
pub struct ReplayHeaderView {
    pub rom_code: Seq<u8>,
    pub revision: u8,
    pub rom_crc32: u32,
    pub seed: u32,
    pub ts: u64,
    pub round: u32,
    pub link_code: Seq<u8>,
    pub snapshot: Seq<u8>,
    pub outcome: Option<Outcome>,
}

/// The mathematical content of a whole log.
pub struct ReplayLogView {
    pub header: ReplayHeaderView,
    pub records: Seq<ReplayRecord>,
}

impl View for ReplayHeader {
    type V = ReplayHeaderView;

    open spec fn view(&self) -> ReplayHeaderView {
        ReplayHeaderView {
            rom_code: self.game.rom_code@,
            revision: self.game.revision,
            rom_crc32: self.game.rom_crc32,
            seed: self.seed,
            ts: self.ts,
            round: self.round,
            link_code: self.link_code@,
            snapshot: self.snapshot@,
            outcome: self.outcome,
        }
    }
}

impl View for ReplayLog {
    type V = ReplayLogView;

    open spec fn view(&self) -> ReplayLogView {
        ReplayLogView { header: self.header@, records: self.records@ }
    }
}

impl ReplayLog {
    /// Record `i` is tick `i`: ticks rise by exactly one per record, both
    /// packets of a record carry the record's tick, and both sides' state
    /// digests agreed (a mismatched pair is never committed).
    pub open spec fn wf(self) -> bool {
        forall|i: int|
            0 <= i < self.records@.len() ==> {
                let r = #[trigger] self.records@[i];
                &&& r.tick == i
                &&& r.local.tick == i
                &&& r.remote.tick == i
                &&& spec_checksums_agree(r.local, r.remote)
            }
    }

    /// An empty log for a round that is about to become live.
    pub fn new(header: ReplayHeader) -> (r: ReplayLog)
        ensures
            r.wf(),
            r.records@.len() == 0,
            r.header == header,
    {
        ReplayLog { header, records: Vec::new() }
    }

    /// Append the next resolved tick.  Only a pair the synchronizer matched
    /// for exactly the next tick may be committed.
    pub fn append(&mut self, local: InputPacket, remote: InputPacket)
        requires
            old(self).wf(),
            local.tick == old(self).records@.len(),
            remote.tick == local.tick,
            spec_checksums_agree(local, remote),
        ensures
            final(self).wf(),
            final(self).records@ == old(self).records@.push(
                ReplayRecord { tick: local.tick, local, remote },
            ),
            final(self).header == old(self).header,
    {
        let tick = local.tick;
        self.records.push(ReplayRecord { tick, local, remote });
    }

    /// The number of committed ticks.
    pub fn len(&self) -> (r: usize)
        ensures
            r == self.records@.len(),
    {
        self.records.len()
    }

    /// Close the log with the match outcome.  Called exactly when the round
    /// ends, whatever the outcome; a desync or forfeit is recorded in the
    /// header rather than silently resolved.
    pub fn finalize(&mut self, outcome: Outcome)
        requires
            old(self).wf(),
        ensures
            final(self).wf(),
            final(self).records@ == old(self).records@,
            final(self).header.outcome == Some(outcome),
            final(self).header.game == old(self).header.game,
            final(self).header.seed == old(self).header.seed,
            final(self).header.ts == old(self).header.ts,
            final(self).header.round == old(self).header.round,
            final(self).header.link_code@ == old(self).header.link_code@,
            final(self).header.snapshot@ == old(self).header.snapshot@,
    {
        self.header.outcome = Some(outcome);
    }
}

/// Playback: a transport-shaped source that yields the recorded remote
/// packets tick by tick instead of a live peer, and discards sends, so the
/// rest of the engine runs unmodified in playback mode.
pub struct ReplayPlayer {
    pub records: Vec<ReplayRecord>,
    pub pos: usize,
}

impl ReplayPlayer {
    pub open spec fn wf(self) -> bool {
        self.pos <= self.records@.len()
    }

    /// A player positioned before the first recorded tick.
    pub fn new(records: Vec<ReplayRecord>) -> (r: ReplayPlayer)
        ensures
            r.wf(),
            r.records@ == records@,
            r.pos == 0,
    {
        ReplayPlayer { records, pos: 0 }
    }

    /// The next recorded remote packet, in recording order; `None` once the
    /// log is exhausted (the end of the stream).
    pub fn receive(&mut self) -> (r: Option<InputPacket>)
        requires
            old(self).wf(),
        ensures
            final(self).wf(),
            final(self).records@ == old(self).records@,
            old(self).pos < old(self).records@.len() ==> {
                &&& r == Some(old(self).records@[old(self).pos as int].remote)
                &&& final(self).pos == old(self).pos + 1
            },
            old(self).pos >= old(self).records@.len() ==> {
                &&& r is None
                &&& final(self).pos == old(self).pos
            },
    {
        if self.pos < self.records.len() {
            let p = self.records[self.pos].remote;
            self.pos = self.pos + 1;
            Some(p)
        } else {
            None
        }
    }

    /// Playback has no peer: whatever the engine sends is discarded, and
    /// sending always succeeds.
    pub fn send(&mut self, msg: &Vec<u8>) -> (r: Result<(), ()>)
        ensures
            r is Ok,
            *final(self) == *old(self),
    {
        let _ = msg;
        Ok(())
    }
}

/// Drive a recorded log back through the live synchronizer pipeline: each
/// recorded tick's local input is re-issued and matched against the remote
/// packet the player yields.
///
/// The result is pinned to the log itself: for a well-formed log the
/// pipeline resolves exactly the recorded tick records, bit for bit.  Two
/// replays of the same log therefore yield identical resolved records.
pub fn replay_through(log: &ReplayLog) -> (r: Vec<ReplayRecord>)
    requires
        log.wf(),
        log.records@.len() < 0xFFFF_FFFFu32,
    ensures
        r@ == log.records@,
{
    let n = log.records.len();
    let mut player = ReplayPlayer::new(log.records.clone());
    let mut sync = Synchronizer::new(1);
    let mut out: Vec<ReplayRecord> = Vec::new();
    let mut i: usize = 0;
    while i < n
        invariant
            n == log.records@.len(),
            n < 0xFFFF_FFFFu32,
            log.wf(),
            player.wf(),
            player.records@ == log.records@,
            player.pos == i,
            0 <= i <= n,
            sync.wf(),
            sync.next_tick == i,
            sync.pending@.len() == 0,
            out@ == log.records@.subrange(0, i as int),
        decreases n - i,
    {
        let rec_local = log.records[i].local;
        let local = sync.local_packet(rec_local.input_bits, rec_local.checksum, rec_local.rng_draw);
        assert(local == rec_local);
        let remote = player.receive().unwrap();
        let pushed = sync.push_remote(remote);
        assert(pushed is Accepted);
        let resolved = sync.try_resolve(local);
        match resolved {
            ResolveResult::Resolved { local: l, remote: rm } => {
                out.push(ReplayRecord { tick: l.tick, local: l, remote: rm });
            },
            _ => {
                proof {
                    assert(false);
                }
            },
        }
        i = i + 1;
        assert(out@ =~= log.records@.subrange(0, i as int));
    }
    assert(out@ =~= log.records@);
    out
}

/// Replaying the same log twice yields bit-identical resolved tick records:
/// each run resolves exactly the log's records, so any two runs agree.
pub proof fn lemma_replay_deterministic(log: ReplayLog, run1: Seq<ReplayRecord>, run2: Seq<
    ReplayRecord,
>)
    requires
        // what `replay_through` guarantees of each run's result
        run1 == log.records@,
        run2 == log.records@,
    ensures
        run1 == run2,
{
}

} // verus!
