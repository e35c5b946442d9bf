//! The replay file format: a header followed by the tick records, readable
//! without a live transport.
//!
//! Layout, all integers little-endian: a 4-byte magic, the game identity
//! (ROM code, revision, CRC-32), the shared RNG seed, the start timestamp,
//! the round number, the outcome (one kind byte and a 4-byte argument), the
//! lengths of the link code, snapshot and record sections, then the three
//! sections themselves.  Each record is 26 bytes: its tick and the two
//! packets of the resolved pair.

use vstd::prelude::*;
use crate::packet::InputPacket;
use crate::replay::{GameIdentity, ReplayHeader, ReplayHeaderView, ReplayLog, ReplayLogView, ReplayRecord};
use crate::round::{Outcome, Side, Winner};
use crate::wire::{push_u16_le, push_u32_le, read_u32_le, spec_flags, spec_le16, spec_le32, spec_u16_bytes, spec_u32_bytes};

verus! {

/// Why a byte sequence is not a replay file.
#[derive(Clone, Copy, Debug, PartialEq, Eq)]
pub enum ReplayFileError {
    /// The file does not start with the replay magic.
    BadMagic,
    /// The file is shorter than its own section lengths claim.
    Truncated,
    /// A field holds a value the format does not allow.
    Malformed,
}

/// The four magic bytes every replay file starts with.
pub open spec fn spec_magic() -> Seq<u8> {
    seq![0x54u8, 0x4Cu8, 0x52u8, 0x31u8]
}

/// The eight little-endian bytes of a 64-bit value.
pub open spec fn spec_u64_bytes(x: u64) -> Seq<u8> {
    seq![
        (x % 0x100) as u8,
        ((x / 0x100) % 0x100) as u8,
        ((x / 0x10000) % 0x100) as u8,
        ((x / 0x1000000) % 0x100) as u8,
        ((x / 0x1_0000_0000) % 0x100) as u8,
        ((x / 0x100_0000_0000) % 0x100) as u8,
        ((x / 0x1_0000_0000_0000) % 0x100) as u8,
        ((x / 0x100_0000_0000_0000) % 0x100) as u8,
    ]
}

/// The little-endian reading of eight bytes.
pub open spec fn spec_le64(b: Seq<u8>) -> u64
    recommends
        b.len() == 8,
{
    (b[0] + b[1] * 0x100 + b[2] * 0x10000 + b[3] * 0x1000000 + b[4] * 0x1_0000_0000 + b[5]
        * 0x100_0000_0000 + b[6] * 0x1_0000_0000_0000 + b[7] * 0x100_0000_0000_0000) as u64
}

pub proof fn lemma_le64_round_trip(x: u64)
    ensures
        spec_le64(spec_u64_bytes(x)) == x,
{
    assert(x % 0x100 + ((x / 0x100) % 0x100) * 0x100 + ((x / 0x10000) % 0x100) * 0x10000 + ((x
        / 0x1000000) % 0x100) * 0x1000000 + ((x / 0x1_0000_0000) % 0x100) * 0x1_0000_0000 + ((x
        / 0x100_0000_0000) % 0x100) * 0x100_0000_0000 + ((x / 0x1_0000_0000_0000) % 0x100)
        * 0x1_0000_0000_0000 + ((x / 0x100_0000_0000_0000) % 0x100) * 0x100_0000_0000_0000 == x)
        by (bit_vector);
}

/// The kind byte of an encoded outcome.
pub open spec fn spec_outcome_kind(o: Option<Outcome>) -> u8 {
    match o {
        None => 0,
        Some(Outcome::Decided { winner: Winner::Local }) => 1,
        Some(Outcome::Decided { winner: Winner::Remote }) => 2,
        Some(Outcome::Decided { winner: Winner::Draw }) => 3,
        Some(Outcome::Desync { .. }) => 4,
        Some(Outcome::Forfeit { disconnected: Side::Local }) => 5,
        Some(Outcome::Forfeit { disconnected: Side::Remote }) => 6,
        Some(Outcome::Forfeit { disconnected: Side::Unknown }) => 7,
    }
}

/// The argument of an encoded outcome: the desync tick, else zero.
pub open spec fn spec_outcome_arg(o: Option<Outcome>) -> u32 {
    match o {
        Some(Outcome::Desync { tick }) => tick,
        _ => 0,
    }
}

/// The outcome a kind byte and argument decode to; `None` for an unknown
/// kind byte.
pub open spec fn spec_outcome_of(kind: u8, arg: u32) -> Option<Option<Outcome>> {
    if kind == 0 {
        Some(None)
    } else if kind == 1 {
        Some(Some(Outcome::Decided { winner: Winner::Local }))
    } else if kind == 2 {
        Some(Some(Outcome::Decided { winner: Winner::Remote }))
    } else if kind == 3 {
        Some(Some(Outcome::Decided { winner: Winner::Draw }))
    } else if kind == 4 {
        Some(Some(Outcome::Desync { tick: arg }))
    } else if kind == 5 {
        Some(Some(Outcome::Forfeit { disconnected: Side::Local }))
    } else if kind == 6 {
        Some(Some(Outcome::Forfeit { disconnected: Side::Remote }))
    } else if kind == 7 {
        Some(Some(Outcome::Forfeit { disconnected: Side::Unknown }))
    } else {
        None
    }
}

/// The 11 bytes a packet occupies inside a record: input bits, the flags
/// byte, then the checksum and RNG draw (zero-filled when absent).
pub open spec fn spec_enc_packet(p: InputPacket) -> Seq<u8> {
    spec_u16_bytes(p.input_bits) + seq![spec_flags(p)] + spec_u32_bytes(
        match p.checksum {
            Some(c) => c,
            None => 0,
        },
    ) + spec_u32_bytes(
        match p.rng_draw {
            Some(v) => v,
            None => 0,
        },
    )
}

/// Decode the 11-byte body of a packet for tick `tick`.
pub open spec fn spec_dec_packet(tick: u32, b: Seq<u8>) -> InputPacket
    recommends
        b.len() == 11,
{
    InputPacket {
        tick,
        input_bits: spec_le16(b[0], b[1]),
        checksum: if b[2] & 1 == 1 {
            Some(spec_le32(b[3], b[4], b[5], b[6]))
        } else {
            None
        },
        rng_draw: if b[2] & 2 == 2 {
            Some(spec_le32(b[7], b[8], b[9], b[10]))
        } else {
            None
        },
    }
}

/// The 26 bytes of one record: the tick and both packet bodies.
pub open spec fn spec_enc_record(r: ReplayRecord) -> Seq<u8> {
    spec_u32_bytes(r.tick) + spec_enc_packet(r.local) + spec_enc_packet(r.remote)
}

pub open spec fn spec_dec_record(b: Seq<u8>) -> ReplayRecord
    recommends
        b.len() == 26,
{
    let tick = spec_le32(b[0], b[1], b[2], b[3]);
    ReplayRecord {
        tick,
        local: spec_dec_packet(tick, b.subrange(4, 15)),
        remote: spec_dec_packet(tick, b.subrange(15, 26)),
    }
}

/// The concatenated encodings of a record sequence.
pub open spec fn spec_enc_records(rs: Seq<ReplayRecord>) -> Seq<u8>
    decreases rs.len(),
{
    if rs.len() == 0 {
        Seq::empty()
    } else {
        spec_enc_record(rs[0]) + spec_enc_records(rs.drop_first())
    }
}

/// Decode `count` consecutive 26-byte records.
pub open spec fn spec_dec_records(b: Seq<u8>, count: nat) -> Seq<ReplayRecord>
    recommends
        b.len() == 26 * count,
    decreases count,
{
    if count == 0 {
        Seq::empty()
    } else {
        seq![spec_dec_record(b.subrange(0, 26))] + spec_dec_records(
            b.skip(26),
            (count - 1) as nat,
        )
    }
}

/// The fixed-size head of an encoded log: everything before the three
/// variable-length sections.
pub open spec fn spec_enc_head(v: ReplayLogView) -> Seq<u8> {
    spec_magic() + v.header.rom_code + seq![v.header.revision] + spec_u32_bytes(
        v.header.rom_crc32,
    ) + spec_u32_bytes(v.header.seed) + spec_u64_bytes(v.header.ts) + spec_u32_bytes(v.header.round)
        + seq![spec_outcome_kind(v.header.outcome)] + spec_u32_bytes(
        spec_outcome_arg(v.header.outcome),
    ) + spec_u32_bytes(v.header.link_code.len() as u32) + spec_u32_bytes(
        v.header.snapshot.len() as u32,
    ) + spec_u32_bytes(v.records.len() as u32)
}

/// The encoded form of a whole log.
pub open spec fn spec_enc_replay(v: ReplayLogView) -> Seq<u8> {
    spec_enc_head(v) + v.header.link_code + v.header.snapshot + spec_enc_records(v.records)
}

/// What decoding a byte sequence as a replay file yields.
pub open spec fn spec_dec_replay(s: Seq<u8>) -> Result<ReplayLogView, ReplayFileError> {
    if s.len() < 46 {
        if s.len() >= 4 && s.subrange(0, 4) != spec_magic() {
            Err(ReplayFileError::BadMagic)
        } else {
            Err(ReplayFileError::Truncated)
        }
    } else if s.subrange(0, 4) != spec_magic() {
        Err(ReplayFileError::BadMagic)
    } else {
        let kind = s[29];
        let arg = spec_le32(s[30], s[31], s[32], s[33]);
        let lc_len = spec_le32(s[34], s[35], s[36], s[37]);
        let ss_len = spec_le32(s[38], s[39], s[40], s[41]);
        let count = spec_le32(s[42], s[43], s[44], s[45]);
        if s.len() != 46 + lc_len + ss_len + 26 * count {
            Err(ReplayFileError::Truncated)
        } else {
            match spec_outcome_of(kind, arg) {
                None => Err(ReplayFileError::Malformed),
                Some(outcome) => Ok(
                    ReplayLogView {
                        header: ReplayHeaderView {
                            rom_code: s.subrange(4, 8),
                            revision: s[8],
                            rom_crc32: spec_le32(s[9], s[10], s[11], s[12]),
                            seed: spec_le32(s[13], s[14], s[15], s[16]),
                            ts: spec_le64(s.subrange(17, 25)),
                            round: spec_le32(s[25], s[26], s[27], s[28]),
                            link_code: s.subrange(46, 46 + lc_len),
                            snapshot: s.subrange(46 + lc_len, 46 + lc_len + ss_len),
                            outcome,
                        },
                        records: spec_dec_records(
                            s.subrange(46 + lc_len + ss_len, s.len() as int),
                            count as nat,
                        ),
                    },
                ),
            }
        }
    }
}

/// A record's packets carry the record's tick, as every committed record's
/// do; only such records survive the file round trip, because a packet's
/// tick is not stored twice.
pub open spec fn spec_record_ticks_agree(r: ReplayRecord) -> bool {
    r.local.tick == r.tick && r.remote.tick == r.tick
}

pub proof fn lemma_packet_round_trip(p: InputPacket, tick: u32)
    requires
        p.tick == tick,
    ensures
        spec_enc_packet(p).len() == 11,
        spec_dec_packet(tick, spec_enc_packet(p)) == p,
{
    let b = spec_enc_packet(p);
    crate::wire::lemma_le16_round_trip(p.input_bits);
    match (p.checksum, p.rng_draw) {
        (None, None) => {
            assert(0u8 & 1 != 1 && 0u8 & 2 != 2) by (bit_vector);
        },
        (Some(c), None) => {
            crate::wire::lemma_le32_round_trip(c);
            assert(1u8 & 1 == 1 && 1u8 & 2 != 2) by (bit_vector);
        },
        (None, Some(v)) => {
            crate::wire::lemma_le32_round_trip(v);
            assert(2u8 & 1 != 1 && 2u8 & 2 == 2) by (bit_vector);
        },
        (Some(c), Some(v)) => {
            crate::wire::lemma_le32_round_trip(c);
            crate::wire::lemma_le32_round_trip(v);
            assert(3u8 & 1 == 1 && 3u8 & 2 == 2) by (bit_vector);
        },
    }
}

pub proof fn lemma_record_round_trip(r: ReplayRecord)
    requires
        spec_record_ticks_agree(r),
    ensures
        spec_enc_record(r).len() == 26,
        spec_dec_record(spec_enc_record(r)) == r,
{
    let b = spec_enc_record(r);
    crate::wire::lemma_le32_round_trip(r.tick);
    lemma_packet_round_trip(r.local, r.tick);
    lemma_packet_round_trip(r.remote, r.tick);
    assert(b.subrange(4, 15) =~= spec_enc_packet(r.local));
    assert(b.subrange(15, 26) =~= spec_enc_packet(r.remote));
}

pub proof fn lemma_records_round_trip(rs: Seq<ReplayRecord>)
    requires
        forall|i: int| 0 <= i < rs.len() ==> spec_record_ticks_agree(#[trigger] rs[i]),
    ensures
        spec_enc_records(rs).len() == 26 * rs.len(),
        spec_dec_records(spec_enc_records(rs), rs.len() as nat) == rs,
    decreases rs.len(),
{
    if rs.len() == 0 {
        assert(spec_dec_records(spec_enc_records(rs), 0) =~= rs);
    } else {
        let b = spec_enc_records(rs);
        lemma_record_round_trip(rs[0]);
        lemma_records_round_trip(rs.drop_first());
        assert(b.subrange(0, 26) =~= spec_enc_record(rs[0]));
        assert(b.skip(26) =~= spec_enc_records(rs.drop_first()));
        assert(spec_dec_records(b, rs.len() as nat) =~= rs);
    }
}

/// Where each part of an encoded log lies in the byte sequence.
#[verifier::rlimit(100)]
proof fn lemma_enc_layout(v: ReplayLogView)
    requires
        v.header.rom_code.len() == 4,
    ensures
        spec_enc_head(v).len() == 46,
        spec_enc_replay(v).len() == 46 + v.header.link_code.len() + v.header.snapshot.len()
            + spec_enc_records(v.records).len(),
        forall|j: int| 0 <= j < 46 ==> spec_enc_replay(v)[j] == spec_enc_head(v)[j],
        spec_enc_replay(v).subrange(46, 46 + v.header.link_code.len() as int)
            == v.header.link_code,
        spec_enc_replay(v).subrange(
            46 + v.header.link_code.len() as int,
            46 + v.header.link_code.len() + v.header.snapshot.len() as int,
        ) == v.header.snapshot,
        spec_enc_replay(v).subrange(
            46 + v.header.link_code.len() + v.header.snapshot.len() as int,
            spec_enc_replay(v).len() as int,
        ) == spec_enc_records(v.records),
{
    let s = spec_enc_replay(v);
    let head = spec_enc_head(v);
    let lc = v.header.link_code;
    let ss = v.header.snapshot;
    let recs = spec_enc_records(v.records);
    assert(head.len() == 46);
    assert forall|j: int| 0 <= j < 46 implies s[j] == head[j] by {
        assert(s[j] == (head + lc)[j]);
    }
    assert(s.subrange(46, 46 + lc.len() as int) =~= lc);
    assert(s.subrange(46 + lc.len() as int, 46 + lc.len() + ss.len() as int) =~= ss);
    assert(s.subrange(46 + lc.len() + ss.len() as int, s.len() as int) =~= recs);
}

/// The decoded reading of every fixed field of an encoded log.
#[verifier::rlimit(100)]
proof fn lemma_enc_fields(v: ReplayLogView)
    requires
        v.header.rom_code.len() == 4,
        v.header.link_code.len() < 0x1_0000_0000,
        v.header.snapshot.len() < 0x1_0000_0000,
        v.records.len() < 0x1_0000_0000,
    ensures
        spec_enc_replay(v).subrange(0, 4) == spec_magic(),
        spec_enc_replay(v).subrange(4, 8) == v.header.rom_code,
        spec_enc_replay(v)[8] == v.header.revision,
        spec_le32(
            spec_enc_replay(v)[9],
            spec_enc_replay(v)[10],
            spec_enc_replay(v)[11],
            spec_enc_replay(v)[12],
        ) == v.header.rom_crc32,
        spec_le32(
            spec_enc_replay(v)[13],
            spec_enc_replay(v)[14],
            spec_enc_replay(v)[15],
            spec_enc_replay(v)[16],
        ) == v.header.seed,
        spec_le64(spec_enc_replay(v).subrange(17, 25)) == v.header.ts,
        spec_le32(
            spec_enc_replay(v)[25],
            spec_enc_replay(v)[26],
            spec_enc_replay(v)[27],
            spec_enc_replay(v)[28],
        ) == v.header.round,
        spec_enc_replay(v)[29] == spec_outcome_kind(v.header.outcome),
        spec_le32(
            spec_enc_replay(v)[30],
            spec_enc_replay(v)[31],
            spec_enc_replay(v)[32],
            spec_enc_replay(v)[33],
        ) == spec_outcome_arg(v.header.outcome),
        spec_le32(
            spec_enc_replay(v)[34],
            spec_enc_replay(v)[35],
            spec_enc_replay(v)[36],
            spec_enc_replay(v)[37],
        ) == v.header.link_code.len() as u32,
        spec_le32(
            spec_enc_replay(v)[38],
            spec_enc_replay(v)[39],
            spec_enc_replay(v)[40],
            spec_enc_replay(v)[41],
        ) == v.header.snapshot.len() as u32,
        spec_le32(
            spec_enc_replay(v)[42],
            spec_enc_replay(v)[43],
            spec_enc_replay(v)[44],
            spec_enc_replay(v)[45],
        ) == v.records.len() as u32,
{
    let s = spec_enc_replay(v);
    let lc = v.header.link_code;
    let ss = v.header.snapshot;
    lemma_enc_layout(v);
    assert(s.subrange(0, 4) =~= spec_magic());
    assert(s.subrange(4, 8) =~= v.header.rom_code);
    assert(spec_le32(s[9], s[10], s[11], s[12]) == v.header.rom_crc32) by {
        crate::wire::lemma_le32_round_trip(v.header.rom_crc32);
        assert(s.subrange(9, 13) =~= spec_u32_bytes(v.header.rom_crc32));
    }
    assert(spec_le32(s[13], s[14], s[15], s[16]) == v.header.seed) by {
        crate::wire::lemma_le32_round_trip(v.header.seed);
        assert(s.subrange(13, 17) =~= spec_u32_bytes(v.header.seed));
    }
    assert(spec_le64(s.subrange(17, 25)) == v.header.ts) by {
        lemma_le64_round_trip(v.header.ts);
        assert(s.subrange(17, 25) =~= spec_u64_bytes(v.header.ts));
    }
    assert(spec_le32(s[25], s[26], s[27], s[28]) == v.header.round) by {
        crate::wire::lemma_le32_round_trip(v.header.round);
        assert(s.subrange(25, 29) =~= spec_u32_bytes(v.header.round));
    }
    assert(spec_le32(s[30], s[31], s[32], s[33]) == spec_outcome_arg(v.header.outcome)) by {
        crate::wire::lemma_le32_round_trip(spec_outcome_arg(v.header.outcome));
        assert(s.subrange(30, 34) =~= spec_u32_bytes(spec_outcome_arg(v.header.outcome)));
    }
    assert(spec_le32(s[34], s[35], s[36], s[37]) == lc.len() as u32) by {
        crate::wire::lemma_le32_round_trip(lc.len() as u32);
        assert(s.subrange(34, 38) =~= spec_u32_bytes(lc.len() as u32));
    }
    assert(spec_le32(s[38], s[39], s[40], s[41]) == ss.len() as u32) by {
        crate::wire::lemma_le32_round_trip(ss.len() as u32);
        assert(s.subrange(38, 42) =~= spec_u32_bytes(ss.len() as u32));
    }
    assert(spec_le32(s[42], s[43], s[44], s[45]) == v.records.len() as u32) by {
        crate::wire::lemma_le32_round_trip(v.records.len() as u32);
        assert(s.subrange(42, 46) =~= spec_u32_bytes(v.records.len() as u32));
    }
}

/// Writing a log to its file form and reading it back yields the log
/// unchanged: a replay file is self-contained.
#[verifier::rlimit(100)]
pub proof fn lemma_replay_file_round_trip(v: ReplayLogView)
    requires
        v.header.rom_code.len() == 4,
        v.header.link_code.len() < 0x1_0000_0000,
        v.header.snapshot.len() < 0x1_0000_0000,
        v.records.len() < 0x1_0000_0000,
        forall|i: int| 0 <= i < v.records.len() ==> spec_record_ticks_agree(#[trigger] v.records[i]),
    ensures
        spec_dec_replay(spec_enc_replay(v)) == Ok::<ReplayLogView, ReplayFileError>(v),
{
    let s = spec_enc_replay(v);
    let lc = v.header.link_code;
    let ss = v.header.snapshot;
    lemma_records_round_trip(v.records);
    lemma_enc_layout(v);
    lemma_enc_fields(v);
    assert(s.len() == 46 + (lc.len() as u32) + (ss.len() as u32) + 26 * (v.records.len() as u32));
    assert(spec_outcome_of(
        spec_outcome_kind(v.header.outcome),
        spec_outcome_arg(v.header.outcome),
    ) == Some(v.header.outcome));
    assert(spec_dec_records(
        s.subrange(46 + lc.len() + ss.len() as int, s.len() as int),
        v.records.len() as nat,
    ) == v.records);
    let d = spec_dec_replay(s);
    assert(d is Ok);
    assert(d->Ok_0.header == v.header);
    assert(d->Ok_0.records == v.records);
}

/// Append the eight little-endian bytes of `x`.
fn push_u64_le(out: &mut Vec<u8>, x: u64)
    ensures
        final(out)@ == old(out)@ + spec_u64_bytes(x),
{
    out.push((x % 0x100) as u8);
    out.push(((x / 0x100) % 0x100) as u8);
    out.push(((x / 0x10000) % 0x100) as u8);
    out.push(((x / 0x1000000) % 0x100) as u8);
    out.push(((x / 0x1_0000_0000) % 0x100) as u8);
    out.push(((x / 0x100_0000_0000) % 0x100) as u8);
    out.push(((x / 0x1_0000_0000_0000) % 0x100) as u8);
    out.push(((x / 0x100_0000_0000_0000) % 0x100) as u8);
    assert(out@ =~= old(out)@ + spec_u64_bytes(x));
}

/// Read eight little-endian bytes starting at `i`.
fn read_u64_le(s: &[u8], i: usize) -> (r: u64)
    requires
        i + 8 <= s@.len(),
    ensures
        r == spec_le64(s@.subrange(i as int, i + 8)),
{
    let r = (s[i] as u64) + (s[i + 1] as u64) * 0x100 + (s[i + 2] as u64) * 0x10000 + (s[i + 3]
        as u64) * 0x1000000 + (s[i + 4] as u64) * 0x1_0000_0000 + (s[i + 5] as u64)
        * 0x100_0000_0000 + (s[i + 6] as u64) * 0x1_0000_0000_0000 + (s[i + 7] as u64)
        * 0x100_0000_0000_0000;
    proof {
        let b = s@.subrange(i as int, i + 8);
        assert(b[0] == s@[i as int] && b[1] == s@[i + 1] && b[2] == s@[i + 2] && b[3] == s@[i + 3]
            && b[4] == s@[i + 4] && b[5] == s@[i + 5] && b[6] == s@[i + 6] && b[7] == s@[i + 7]);
    }
    r
}

/// Copy `len` bytes starting at `start` into a fresh vector.
fn copy_range(s: &[u8], start: usize, len: usize) -> (r: Vec<u8>)
    requires
        start + len <= s@.len(),
    ensures
        r@ == s@.subrange(start as int, start + len),
{
    let slen = s.len();
    let mut out: Vec<u8> = Vec::new();
    let mut i: usize = 0;
    while i < len
        invariant
            start + len <= slen == s@.len(),
            0 <= i <= len,
            out@ == s@.subrange(start as int, start + i),
        decreases len - i,
    {
        out.push(s[start + i]);
        i = i + 1;
        assert(out@ =~= s@.subrange(start as int, start + i));
    }
    out
}

/// Append the whole of `b`.
fn append_bytes(out: &mut Vec<u8>, b: &Vec<u8>)
    ensures
        final(out)@ == old(out)@ + b@,
{
    let mut i: usize = 0;
    while i < b.len()
        invariant
            0 <= i <= b@.len(),
            out@ == old(out)@ + b@.subrange(0, i as int),
        decreases b@.len() - i,
    {
        out.push(b[i]);
        i = i + 1;
        assert(out@ =~= old(out)@ + b@.subrange(0, i as int));
    }
    assert(out@ =~= old(out)@ + b@);
}

/// Exec form of `spec_outcome_kind`.
fn outcome_kind(o: &Option<Outcome>) -> (r: u8)
    ensures
        r == spec_outcome_kind(*o),
{
    match o {
        None => 0,
        Some(Outcome::Decided { winner: Winner::Local }) => 1,
        Some(Outcome::Decided { winner: Winner::Remote }) => 2,
        Some(Outcome::Decided { winner: Winner::Draw }) => 3,
        Some(Outcome::Desync { .. }) => 4,
        Some(Outcome::Forfeit { disconnected: Side::Local }) => 5,
        Some(Outcome::Forfeit { disconnected: Side::Remote }) => 6,
        Some(Outcome::Forfeit { disconnected: Side::Unknown }) => 7,
    }
}

/// Exec form of `spec_outcome_arg`.
fn outcome_arg(o: &Option<Outcome>) -> (r: u32)
    ensures
        r == spec_outcome_arg(*o),
{
    match o {
        Some(Outcome::Desync { tick }) => *tick,
        _ => 0,
    }
}

/// Exec form of `spec_outcome_of`.
fn outcome_of(kind: u8, arg: u32) -> (r: Option<Option<Outcome>>)
    ensures
        r == spec_outcome_of(kind, arg),
{
    if kind == 0 {
        Some(None)
    } else if kind == 1 {
        Some(Some(Outcome::Decided { winner: Winner::Local }))
    } else if kind == 2 {
        Some(Some(Outcome::Decided { winner: Winner::Remote }))
    } else if kind == 3 {
        Some(Some(Outcome::Decided { winner: Winner::Draw }))
    } else if kind == 4 {
        Some(Some(Outcome::Desync { tick: arg }))
    } else if kind == 5 {
        Some(Some(Outcome::Forfeit { disconnected: Side::Local }))
    } else if kind == 6 {
        Some(Some(Outcome::Forfeit { disconnected: Side::Remote }))
    } else if kind == 7 {
        Some(Some(Outcome::Forfeit { disconnected: Side::Unknown }))
    } else {
        None
    }
}

/// Append the 11-byte body of one packet.
fn push_packet(out: &mut Vec<u8>, p: &InputPacket)
    ensures
        final(out)@ == old(out)@ + spec_enc_packet(*p),
{
    push_u16_le(out, p.input_bits);
    let flags: u8 = (if p.checksum.is_some() { 1u8 } else { 0u8 }) + (if p.rng_draw.is_some() {
        2u8
    } else {
        0u8
    });
    out.push(flags);
    push_u32_le(
        out,
        match p.checksum {
            Some(c) => c,
            None => 0,
        },
    );
    push_u32_le(
        out,
        match p.rng_draw {
            Some(v) => v,
            None => 0,
        },
    );
    assert(out@ =~= old(out)@ + spec_enc_packet(*p));
}

/// Append the 26 bytes of one record.
fn push_record(out: &mut Vec<u8>, r: &ReplayRecord)
    ensures
        final(out)@ == old(out)@ + spec_enc_record(*r),
{
    push_u32_le(out, r.tick);
    push_packet(out, &r.local);
    push_packet(out, &r.remote);
    assert(out@ =~= old(out)@ + spec_enc_record(*r));
}

/// Append the encodings of the records from index `i` on.
fn push_records(out: &mut Vec<u8>, records: &Vec<ReplayRecord>, i: usize)
    requires
        i <= records@.len(),
    ensures
        final(out)@ == old(out)@ + spec_enc_records(records@.skip(i as int)),
    decreases records@.len() - i,
{
    if i < records.len() {
        push_record(out, &records[i]);
        push_records(out, records, i + 1);
        proof {
            let rest = records@.skip(i as int);
            assert(rest[0] == records@[i as int]);
            assert(rest.drop_first() =~= records@.skip(i + 1));
            assert(out@ =~= old(out)@ + spec_enc_records(records@.skip(i as int)));
        }
    } else {
        assert(records@.skip(i as int) =~= Seq::<ReplayRecord>::empty());
    }
}

/// Write a log into its file form.
#[verifier::rlimit(100)]
pub fn encode_replay(log: &ReplayLog) -> (r: Vec<u8>)
    requires
        log.header.link_code@.len() < 0x1_0000_0000,
        log.header.snapshot@.len() < 0x1_0000_0000,
        log.records@.len() < 0x1_0000_0000,
    ensures
        r@ == spec_enc_replay(log@),
{
    let mut out: Vec<u8> = Vec::new();
    out.push(0x54u8);
    out.push(0x4Cu8);
    out.push(0x52u8);
    out.push(0x31u8);
    out.push(log.header.game.rom_code[0]);
    out.push(log.header.game.rom_code[1]);
    out.push(log.header.game.rom_code[2]);
    out.push(log.header.game.rom_code[3]);
    out.push(log.header.game.revision);
    push_u32_le(&mut out, log.header.game.rom_crc32);
    push_u32_le(&mut out, log.header.seed);
    push_u64_le(&mut out, log.header.ts);
    push_u32_le(&mut out, log.header.round);
    out.push(outcome_kind(&log.header.outcome));
    push_u32_le(&mut out, outcome_arg(&log.header.outcome));
    push_u32_le(&mut out, log.header.link_code.len() as u32);
    push_u32_le(&mut out, log.header.snapshot.len() as u32);
    push_u32_le(&mut out, log.records.len() as u32);
    append_bytes(&mut out, &log.header.link_code);
    append_bytes(&mut out, &log.header.snapshot);
    push_records(&mut out, &log.records, 0);
    proof {
        assert(log.header.game.rom_code@ =~= seq![
            log.header.game.rom_code@[0],
            log.header.game.rom_code@[1],
            log.header.game.rom_code@[2],
            log.header.game.rom_code@[3],
        ]);
        assert(log.records@.skip(0) =~= log.records@);
        assert(out@ =~= spec_enc_replay(log@));
    }
    out
}

/// Read one packet body at absolute offset `off`.
fn read_packet(s: &[u8], tick: u32, off: usize) -> (r: InputPacket)
    requires
        off + 11 <= s@.len(),
    ensures
        r == spec_dec_packet(tick, s@.subrange(off as int, off + 11)),
{
    let bits = (s[off] as u16) + (s[off + 1] as u16) * 0x100;
    let flags = s[off + 2];
    let checksum = if flags & 1 == 1 {
        Some(read_u32_le(s, off + 3))
    } else {
        None
    };
    let rng_draw = if flags & 2 == 2 {
        Some(read_u32_le(s, off + 7))
    } else {
        None
    };
    proof {
        let b = s@.subrange(off as int, off + 11);
        assert(forall|j: int| 0 <= j < 11 ==> b[j] == s@[off + j]);
        assert(s@.subrange(off + 3, off + 3 + 4) =~= b.subrange(3, 7));
        assert(s@.subrange(off + 7, off + 7 + 4) =~= b.subrange(7, 11));
    }
    InputPacket { tick, input_bits: bits, checksum, rng_draw }
}

/// Read one 26-byte record at absolute offset `off`.
fn read_record(s: &[u8], off: usize) -> (r: ReplayRecord)
    requires
        off + 26 <= s@.len(),
    ensures
        r == spec_dec_record(s@.subrange(off as int, off + 26)),
{
    let slen = s.len();
    let tick = read_u32_le(s, off);
    let local = read_packet(s, tick, off + 4);
    let remote = read_packet(s, tick, off + 15);
    proof {
        let b = s@.subrange(off as int, off + 26);
        assert(forall|j: int| 0 <= j < 26 ==> b[j] == s@[off + j]);
        assert(s@.subrange(off as int, off + 4) =~= b.subrange(0, 4));
        assert(s@.subrange(off + 4, off + 4 + 11) =~= b.subrange(4, 15));
        assert(s@.subrange(off + 15, off + 15 + 11) =~= b.subrange(15, 26));
    }
    ReplayRecord { tick, local, remote }
}

/// Read `count` records starting at absolute offset `off`.
fn read_records(s: &[u8], off: usize, count: u32) -> (r: Vec<ReplayRecord>)
    requires
        off + 26 * (count as int) <= s@.len(),
    ensures
        r@ == spec_dec_records(s@.subrange(off as int, off + 26 * (count as int)), count as nat),
    decreases count,
{
    let slen = s.len();
    if count == 0 {
        let out: Vec<ReplayRecord> = Vec::new();
        assert(s@.subrange(off as int, off as int) =~= Seq::<u8>::empty());
        out
    } else {
        let first = read_record(s, off);
        let mut rest = read_records(s, off + 26, count - 1);
        rest.insert(0, first);
        proof {
            let b = s@.subrange(off as int, off + 26 * (count as int));
            assert(b.subrange(0, 26) =~= s@.subrange(off as int, off + 26));
            assert(b.skip(26) =~= s@.subrange(off + 26, off + 26 + 26 * (count - 1)));
            assert(rest@ =~= seq![spec_dec_record(b.subrange(0, 26))] + spec_dec_records(
                b.skip(26),
                (count - 1) as nat,
            ));
        }
        rest
    }
}

/// Read a whole replay file back into a log.
pub fn decode_replay(s: &[u8]) -> (r: Result<ReplayLog, ReplayFileError>)
    ensures
        match r {
            Ok(log) => spec_dec_replay(s@) == Ok::<ReplayLogView, ReplayFileError>(log@),
            Err(e) => spec_dec_replay(s@) == Err::<ReplayLogView, ReplayFileError>(e),
        },
{
    if s.len() >= 4 && !(s[0] == 0x54 && s[1] == 0x4C && s[2] == 0x52 && s[3] == 0x31) {
        proof {
            assert(s@.subrange(0, 4) != spec_magic());
        }
        return Err(ReplayFileError::BadMagic);
    }
    if s.len() < 46 {
        proof {
            if s@.len() >= 4 {
                assert(s@.subrange(0, 4) =~= spec_magic());
            }
        }
        return Err(ReplayFileError::Truncated);
    }
    proof {
        assert(s@.subrange(0, 4) =~= spec_magic());
    }
    let rom_code: [u8; 4] = [s[4], s[5], s[6], s[7]];
    let revision = s[8];
    let rom_crc32 = read_u32_le(s, 9);
    let seed = read_u32_le(s, 13);
    let ts = read_u64_le(s, 17);
    let round = read_u32_le(s, 25);
    let kind = s[29];
    let arg = read_u32_le(s, 30);
    let lc_len = read_u32_le(s, 34);
    let ss_len = read_u32_le(s, 38);
    let count = read_u32_le(s, 42);
    proof {
        assert(spec_le32(s@[9], s@[10], s@[11], s@[12]) == rom_crc32);
    }
    let total: u64 = 46u64 + (lc_len as u64) + (ss_len as u64) + 26u64 * (count as u64);
    if (s.len() as u64) != total {
        return Err(ReplayFileError::Truncated);
    }
    let outcome = match outcome_of(kind, arg) {
        Some(o) => o,
        None => {
            return Err(ReplayFileError::Malformed);
        },
    };
    let lc_start: usize = 46;
    let lc_n: usize = lc_len as usize;
    let ss_n: usize = ss_len as usize;
    let link_code = copy_range(s, lc_start, lc_n);
    let snapshot = copy_range(s, lc_start + lc_n, ss_n);
    let records = read_records(s, lc_start + lc_n + ss_n, count);
    proof {
        assert(s@.subrange(46 + lc_len + ss_len, s@.len() as int) =~= s@.subrange(
            46 + lc_len + ss_len,
            46 + lc_len + ss_len + 26 * (count as int),
        ));
        assert(rom_code@ =~= s@.subrange(4, 8));
    }
    Ok(
        ReplayLog {
            header: ReplayHeader {
                game: GameIdentity { rom_code, revision, rom_crc32 },
                seed,
                ts,
                round,
                link_code,
                snapshot,
                outcome,
            },
            records,
        },
    )
}

} // verus!
