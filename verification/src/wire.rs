//! Byte-level framing of `WireMessage` over the transport's message boundary.
//!
//! The format is forward-compatible: a message with an unknown leading tag,
//! or a control message with an unknown kind, decodes to `Ok(None)` and is
//! ignored rather than treated as fatal.  Truncated or internally
//! inconsistent messages are errors.

use vstd::prelude::*;
use crate::packet::{InputPacket, RoundControl, WinnerReport, WireMessage};

verus! {

/// Why a received byte message could not be decoded.
#[derive(Clone, Copy, Debug, PartialEq, Eq)]
pub enum DecodeError {
    /// The message ended before the fields its tag promises.
    Truncated,
    /// A field holds a value the format does not allow.
    Malformed,
}

/// Leading tag of an input packet message.
pub const TAG_INPUT: u8 = 1;
/// Leading tag of a round-control message.
pub const TAG_CONTROL: u8 = 2;
/// Leading tag of a keepalive message.
pub const TAG_HEARTBEAT: u8 = 3;

/// The little-endian reading of four bytes.
pub open spec fn spec_le32(b0: u8, b1: u8, b2: u8, b3: u8) -> u32 {
    (b0 + b1 * 0x100 + b2 * 0x10000 + b3 * 0x1000000) as u32
}

/// The little-endian reading of two bytes.
pub open spec fn spec_le16(b0: u8, b1: u8) -> u16 {
    (b0 + b1 * 0x100) as u16
}

/// The four little-endian bytes of a 32-bit value.
pub open spec fn spec_u32_bytes(x: u32) -> Seq<u8> {
    seq![
        (x % 0x100) as u8,
        ((x / 0x100) % 0x100) as u8,
        ((x / 0x10000) % 0x100) as u8,
        ((x / 0x1000000) % 0x100) as u8,
    ]
}

/// The two little-endian bytes of a 16-bit value.
pub open spec fn spec_u16_bytes(x: u16) -> Seq<u8> {
    seq![(x % 0x100) as u8, (x / 0x100) as u8]
}

pub proof fn lemma_le32_round_trip(x: u32)
    ensures
        spec_le32(
            spec_u32_bytes(x)[0],
            spec_u32_bytes(x)[1],
            spec_u32_bytes(x)[2],
            spec_u32_bytes(x)[3],
        ) == x,
{
    assert(x % 0x100 + ((x / 0x100) % 0x100) * 0x100 + ((x / 0x10000) % 0x100) * 0x10000 + ((x
        / 0x1000000) % 0x100) * 0x1000000 == x) by (bit_vector);
}

pub proof fn lemma_le16_round_trip(x: u16)
    ensures
        spec_le16(spec_u16_bytes(x)[0], spec_u16_bytes(x)[1]) == x,
{
    assert(x % 0x100 + (x / 0x100) * 0x100 == x) by (bit_vector);
}

/// The flags byte of an encoded input packet: bit 0 marks a checksum, bit 1
/// an RNG draw.  Decoders ignore the remaining bits.
pub open spec fn spec_flags(p: InputPacket) -> u8 {
    ((if p.checksum is Some { 1int } else { 0 }) + (if p.rng_draw is Some { 2int } else { 0 })) as u8
}

/// The byte standing for a winner report.
pub open spec fn spec_report_byte(r: WinnerReport) -> u8 {
    match r {
        WinnerReport::Mine => 0,
        WinnerReport::Theirs => 1,
        WinnerReport::Draw => 2,
    }
}

/// The encoded form of a message.
pub open spec fn spec_encode(m: WireMessage) -> Seq<u8> {
    match m {
        WireMessage::Input(p) => seq![TAG_INPUT] + spec_u32_bytes(p.tick) + spec_u16_bytes(
            p.input_bits,
        ) + seq![spec_flags(p)] + (match p.checksum {
            Some(c) => spec_u32_bytes(c),
            None => Seq::empty(),
        }) + (match p.rng_draw {
            Some(v) => spec_u32_bytes(v),
            None => Seq::empty(),
        }),
        WireMessage::Control(RoundControl::StartReady) => seq![TAG_CONTROL, 0u8] + spec_u32_bytes(
            0,
        ),
        WireMessage::Control(RoundControl::Ending { tick }) => seq![TAG_CONTROL, 1u8]
            + spec_u32_bytes(tick),
        WireMessage::Control(RoundControl::Outcome { tick, report }) => seq![TAG_CONTROL, 2u8]
            + spec_u32_bytes(tick) + seq![spec_report_byte(report)],
        WireMessage::Heartbeat => seq![TAG_HEARTBEAT],
    }
}

/// What decoding a byte message yields: a message, `None` for a
/// forward-compatible unknown tag or control kind, or an error.
pub open spec fn spec_decode(s: Seq<u8>) -> Result<Option<WireMessage>, DecodeError> {
    if s.len() < 1 {
        Err(DecodeError::Truncated)
    } else if s[0] == TAG_INPUT {
        spec_decode_input(s)
    } else if s[0] == TAG_CONTROL {
        spec_decode_control(s)
    } else if s[0] == TAG_HEARTBEAT {
        Ok(Some(WireMessage::Heartbeat))
    } else {
        Ok(None)
    }
}

pub open spec fn spec_decode_input(s: Seq<u8>) -> Result<Option<WireMessage>, DecodeError> {
    if s.len() < 8 {
        Err(DecodeError::Truncated)
    } else {
        let flags = s[7];
        let has_cs = flags & 1 == 1;
        let has_rng = flags & 2 == 2;
        let need = 8 + (if has_cs { 4int } else { 0 }) + (if has_rng { 4int } else { 0 });
        if s.len() < need {
            Err(DecodeError::Truncated)
        } else {
            let cs_off = 8int;
            let rng_off = if has_cs { 12int } else { 8 };
            Ok(
                Some(
                    WireMessage::Input(
                        InputPacket {
                            tick: spec_le32(s[1], s[2], s[3], s[4]),
                            input_bits: spec_le16(s[5], s[6]),
                            checksum: if has_cs {
                                Some(spec_le32(s[cs_off], s[cs_off + 1], s[cs_off + 2], s[cs_off + 3]))
                            } else {
                                None
                            },
                            rng_draw: if has_rng {
                                Some(
                                    spec_le32(
                                        s[rng_off],
                                        s[rng_off + 1],
                                        s[rng_off + 2],
                                        s[rng_off + 3],
                                    ),
                                )
                            } else {
                                None
                            },
                        },
                    ),
                ),
            )
        }
    }
}

pub open spec fn spec_decode_control(s: Seq<u8>) -> Result<Option<WireMessage>, DecodeError> {
    if s.len() < 6 {
        Err(DecodeError::Truncated)
    } else {
        let kind = s[1];
        let tick = spec_le32(s[2], s[3], s[4], s[5]);
        if kind == 0 {
            Ok(Some(WireMessage::Control(RoundControl::StartReady)))
        } else if kind == 1 {
            Ok(Some(WireMessage::Control(RoundControl::Ending { tick })))
        } else if kind == 2 {
            if s.len() < 7 {
                Err(DecodeError::Truncated)
            } else if s[6] == 0 {
                Ok(Some(WireMessage::Control(RoundControl::Outcome { tick, report: WinnerReport::Mine })))
            } else if s[6] == 1 {
                Ok(Some(WireMessage::Control(RoundControl::Outcome { tick, report: WinnerReport::Theirs })))
            } else if s[6] == 2 {
                Ok(Some(WireMessage::Control(RoundControl::Outcome { tick, report: WinnerReport::Draw })))
            } else {
                Err(DecodeError::Malformed)
            }
        } else {
            Ok(None)
        }
    }
}

/// Append the four little-endian bytes of `x`.
pub(crate) fn push_u32_le(out: &mut Vec<u8>, x: u32)
    ensures
        final(out)@ == old(out)@ + spec_u32_bytes(x),
{
    out.push((x % 0x100) as u8);
    out.push(((x / 0x100) % 0x100) as u8);
    out.push(((x / 0x10000) % 0x100) as u8);
    out.push(((x / 0x1000000) % 0x100) as u8);
    assert(out@ =~= old(out)@ + spec_u32_bytes(x));
}

/// Append the two little-endian bytes of `x`.
pub(crate) fn push_u16_le(out: &mut Vec<u8>, x: u16)
    ensures
        final(out)@ == old(out)@ + spec_u16_bytes(x),
{
    out.push((x % 0x100) as u8);
    out.push((x / 0x100) as u8);
    assert(out@ =~= old(out)@ + spec_u16_bytes(x));
}

/// Read four little-endian bytes starting at `i`.
pub(crate) fn read_u32_le(s: &[u8], i: usize) -> (r: u32)
    requires
        i + 4 <= s@.len(),
    ensures
        r == spec_le32(s@[i as int], s@[i + 1], s@[i + 2], s@[i + 3]),
{
    (s[i] as u32) + (s[i + 1] as u32) * 0x100 + (s[i + 2] as u32) * 0x10000 + (s[i + 3] as u32)
        * 0x1000000
}

/// Encode a message into the byte form the transport carries.
pub fn encode(m: &WireMessage) -> (r: Vec<u8>)
    ensures
        r@ == spec_encode(*m),
{
    let mut out: Vec<u8> = Vec::new();
    match m {
        WireMessage::Input(p) => {
            out.push(TAG_INPUT);
            push_u32_le(&mut out, p.tick);
            push_u16_le(&mut out, p.input_bits);
            let flags: u8 = (if p.checksum.is_some() { 1u8 } else { 0u8 }) + (if p
                .rng_draw
                .is_some() {
                2u8
            } else {
                0u8
            });
            out.push(flags);
            if let Some(c) = p.checksum {
                push_u32_le(&mut out, c);
            }
            if let Some(v) = p.rng_draw {
                push_u32_le(&mut out, v);
            }
        },
        WireMessage::Control(RoundControl::StartReady) => {
            out.push(TAG_CONTROL);
            out.push(0u8);
            push_u32_le(&mut out, 0);
        },
        WireMessage::Control(RoundControl::Ending { tick }) => {
            out.push(TAG_CONTROL);
            out.push(1u8);
            push_u32_le(&mut out, *tick);
        },
        WireMessage::Control(RoundControl::Outcome { tick, report }) => {
            out.push(TAG_CONTROL);
            out.push(2u8);
            push_u32_le(&mut out, *tick);
            out.push(
                match report {
                    WinnerReport::Mine => 0u8,
                    WinnerReport::Theirs => 1u8,
                    WinnerReport::Draw => 2u8,
                },
            );
        },
        WireMessage::Heartbeat => {
            out.push(TAG_HEARTBEAT);
        },
    }
    assert(out@ =~= spec_encode(*m));
    out
}

/// Decode one received byte message.
pub fn decode(s: &[u8]) -> (r: Result<Option<WireMessage>, DecodeError>)
    ensures
        r == spec_decode(s@),
{
    if s.len() < 1 {
        return Err(DecodeError::Truncated);
    }
    let tag = s[0];
    if tag == TAG_INPUT {
        decode_input(s)
    } else if tag == TAG_CONTROL {
        decode_control(s)
    } else if tag == TAG_HEARTBEAT {
        Ok(Some(WireMessage::Heartbeat))
    } else {
        Ok(None)
    }
}

fn decode_input(s: &[u8]) -> (r: Result<Option<WireMessage>, DecodeError>)
    requires
        s@.len() >= 1,
        s@[0] == TAG_INPUT,
    ensures
        r == spec_decode_input(s@),
{
    if s.len() < 8 {
        return Err(DecodeError::Truncated);
    }
    let flags = s[7];
    let has_cs = flags & 1 == 1;
    let has_rng = flags & 2 == 2;
    let need: usize = 8 + (if has_cs { 4 } else { 0 }) + (if has_rng { 4 } else { 0 });
    if s.len() < need {
        return Err(DecodeError::Truncated);
    }
    let tick = read_u32_le(s, 1);
    let input_bits = (s[5] as u16) + (s[6] as u16) * 0x100;
    let checksum = if has_cs {
        Some(read_u32_le(s, 8))
    } else {
        None
    };
    let rng_off: usize = if has_cs {
        12
    } else {
        8
    };
    let rng_draw = if has_rng {
        Some(read_u32_le(s, rng_off))
    } else {
        None
    };
    Ok(Some(WireMessage::Input(InputPacket { tick, input_bits, checksum, rng_draw })))
}

fn decode_control(s: &[u8]) -> (r: Result<Option<WireMessage>, DecodeError>)
    requires
        s@.len() >= 1,
        s@[0] == TAG_CONTROL,
    ensures
        r == spec_decode_control(s@),
{
    if s.len() < 6 {
        return Err(DecodeError::Truncated);
    }
    let kind = s[1];
    let tick = read_u32_le(s, 2);
    if kind == 0 {
        Ok(Some(WireMessage::Control(RoundControl::StartReady)))
    } else if kind == 1 {
        Ok(Some(WireMessage::Control(RoundControl::Ending { tick })))
    } else if kind == 2 {
        if s.len() < 7 {
            Err(DecodeError::Truncated)
        } else {
            let rep = s[6];
            if rep == 0 {
                Ok(Some(WireMessage::Control(RoundControl::Outcome { tick, report: WinnerReport::Mine })))
            } else if rep == 1 {
                Ok(Some(WireMessage::Control(RoundControl::Outcome { tick, report: WinnerReport::Theirs })))
            } else if rep == 2 {
                Ok(Some(WireMessage::Control(RoundControl::Outcome { tick, report: WinnerReport::Draw })))
            } else {
                Err(DecodeError::Malformed)
            }
        }
    } else {
        Ok(None)
    }
}

/// Decoding inverts encoding: every message survives the trip onto the wire
/// and back unchanged.
pub proof fn lemma_wire_round_trip(m: WireMessage)
    ensures
        spec_decode(spec_encode(m)) == Ok::<Option<WireMessage>, DecodeError>(Some(m)),
{
    let s = spec_encode(m);
    match m {
        WireMessage::Input(p) => {
            lemma_le32_round_trip(p.tick);
            lemma_le16_round_trip(p.input_bits);
            match (p.checksum, p.rng_draw) {
                (None, None) => {
                    assert(s =~= seq![
                        TAG_INPUT,
                        (p.tick % 0x100) as u8,
                        ((p.tick / 0x100) % 0x100) as u8,
                        ((p.tick / 0x10000) % 0x100) as u8,
                        ((p.tick / 0x1000000) % 0x100) as u8,
                        (p.input_bits % 0x100) as u8,
                        (p.input_bits / 0x100) as u8,
                        0u8,
                    ]);
                    assert(0u8 & 1 != 1 && 0u8 & 2 != 2) by (bit_vector);
                },
                (Some(c), None) => {
                    lemma_le32_round_trip(c);
                    assert(s =~= seq![
                        TAG_INPUT,
                        (p.tick % 0x100) as u8,
                        ((p.tick / 0x100) % 0x100) as u8,
                        ((p.tick / 0x10000) % 0x100) as u8,
                        ((p.tick / 0x1000000) % 0x100) as u8,
                        (p.input_bits % 0x100) as u8,
                        (p.input_bits / 0x100) as u8,
                        1u8,
                        (c % 0x100) as u8,
                        ((c / 0x100) % 0x100) as u8,
                        ((c / 0x10000) % 0x100) as u8,
                        ((c / 0x1000000) % 0x100) as u8,
                    ]);
                    assert(1u8 & 1 == 1 && 1u8 & 2 != 2) by (bit_vector);
                },
                (None, Some(v)) => {
                    lemma_le32_round_trip(v);
                    assert(s =~= seq![
                        TAG_INPUT,
                        (p.tick % 0x100) as u8,
                        ((p.tick / 0x100) % 0x100) as u8,
                        ((p.tick / 0x10000) % 0x100) as u8,
                        ((p.tick / 0x1000000) % 0x100) as u8,
                        (p.input_bits % 0x100) as u8,
                        (p.input_bits / 0x100) as u8,
                        2u8,
                        (v % 0x100) as u8,
                        ((v / 0x100) % 0x100) as u8,
                        ((v / 0x10000) % 0x100) as u8,
                        ((v / 0x1000000) % 0x100) as u8,
                    ]);
                    assert(2u8 & 1 != 1 && 2u8 & 2 == 2) by (bit_vector);
                },
                (Some(c), Some(v)) => {
                    lemma_le32_round_trip(c);
                    lemma_le32_round_trip(v);
                    assert(s =~= seq![
                        TAG_INPUT,
                        (p.tick % 0x100) as u8,
                        ((p.tick / 0x100) % 0x100) as u8,
                        ((p.tick / 0x10000) % 0x100) as u8,
                        ((p.tick / 0x1000000) % 0x100) as u8,
                        (p.input_bits % 0x100) as u8,
                        (p.input_bits / 0x100) as u8,
                        3u8,
                        (c % 0x100) as u8,
                        ((c / 0x100) % 0x100) as u8,
                        ((c / 0x10000) % 0x100) as u8,
                        ((c / 0x1000000) % 0x100) as u8,
                        (v % 0x100) as u8,
                        ((v / 0x100) % 0x100) as u8,
                        ((v / 0x10000) % 0x100) as u8,
                        ((v / 0x1000000) % 0x100) as u8,
                    ]);
                    assert(3u8 & 1 == 1 && 3u8 & 2 == 2) by (bit_vector);
                },
            }
        },
        WireMessage::Control(RoundControl::StartReady) => {
            assert(s =~= seq![TAG_CONTROL, 0u8, 0u8, 0u8, 0u8, 0u8]);
        },
        WireMessage::Control(RoundControl::Ending { tick }) => {
            lemma_le32_round_trip(tick);
            assert(s =~= seq![
                TAG_CONTROL,
                1u8,
                (tick % 0x100) as u8,
                ((tick / 0x100) % 0x100) as u8,
                ((tick / 0x10000) % 0x100) as u8,
                ((tick / 0x1000000) % 0x100) as u8,
            ]);
        },
        WireMessage::Control(RoundControl::Outcome { tick, report }) => {
            lemma_le32_round_trip(tick);
            assert(s =~= seq![
                TAG_CONTROL,
                2u8,
                (tick % 0x100) as u8,
                ((tick / 0x100) % 0x100) as u8,
                ((tick / 0x10000) % 0x100) as u8,
                ((tick / 0x1000000) % 0x100) as u8,
                spec_report_byte(report),
            ]);
        },
        WireMessage::Heartbeat => {
            assert(s =~= seq![TAG_HEARTBEAT]);
        },
    }
}

} // verus!
