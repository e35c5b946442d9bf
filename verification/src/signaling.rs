//! The compute side of session establishment over the signaling server's
//! socket: the resumption header, the greeting exchange, and the reactions
//! of the background receive pump.  The socket itself is the surrounding
//! program's; everything here is plain values in, plain values out.

use vstd::prelude::*;
use vstd::string::StringExecFns;
use base64::Engine;
use crate::wire::{push_u32_le, read_u32_le, spec_le32, spec_u32_bytes};

verus! {

/// What a socket message is, as far as the engine reads it.
pub enum WsMessage {
    Text { text: String },
    Binary { payload: Vec<u8> },
    Ping { payload: Vec<u8> },
    Pong { payload: Vec<u8> },
    Close,
}

/// Why session establishment failed.
#[derive(Clone, Copy, Debug, PartialEq, Eq)]
pub enum HandshakeError {
    /// The stream closed before the greeting arrived.
    StreamClosed,
    /// The first message was not a binary greeting.
    UnexpectedPacket,
}

/// The server's greeting: who this client is and the ticket to present on
/// reconnect.  The ticket is opaque and forwarded unchanged.
pub struct ClientHello {
    pub user_id: Vec<u8>,
    pub ticket: Vec<u8>,
}

/// The base64url encoding without padding, as the encoder produces it.
pub uninterp spec fn b64url_nopad(b: Seq<u8>) -> Seq<char>;

/// Relies on base64's `Engine::encode` with the `URL_SAFE_NO_PAD` engine:
/// the result is a function of the input bytes alone; without padding the
/// encoded length is exactly `(4n + 2) / 3`, so an empty input encodes to
/// the empty string.
#[verifier::external_body]
fn b64url_encode(b: &[u8]) -> (r: String)
    requires
        b@.len() * 4 + 2 <= usize::MAX,
    ensures
        r@ == b64url_nopad(b@),
        r@.len() == (4 * b@.len() + 2) / 3,
{
    base64::engine::general_purpose::URL_SAFE_NO_PAD.encode(b)
}

/// The Authorization value presented when reconnecting with a resumption
/// ticket: nothing for an empty ticket, else the resumption scheme name
/// followed by the ticket, base64url-encoded without padding.
pub fn resumption_header_value(ticket: &Vec<u8>) -> (r: Option<String>)
    requires
        ticket@.len() * 4 + 2 <= usize::MAX,
    ensures
        ticket@.len() == 0 <==> r is None,
        r matches Some(s) ==> s@ == "Nettai-Resumption "@ + b64url_nopad(ticket@),
{
    if ticket.len() == 0 {
        None
    } else {
        let mut s: String = "Nettai-Resumption ".to_owned();
        let enc = b64url_encode(ticket.as_slice());
        s.append(enc.as_str());
        Some(s)
    }
}

/// The encoded greeting: a tag byte, both section lengths, then the user
/// id and the ticket.
pub open spec fn spec_enc_hello(user_id: Seq<u8>, ticket: Seq<u8>) -> Seq<u8> {
    seq![1u8] + spec_u32_bytes(user_id.len() as u32) + spec_u32_bytes(ticket.len() as u32)
        + user_id + ticket
}

/// What a byte message decodes to as a greeting.
pub open spec fn spec_dec_hello(s: Seq<u8>) -> Option<(Seq<u8>, Seq<u8>)> {
    if s.len() < 9 || s[0] != 1 {
        None
    } else {
        let l1 = spec_le32(s[1], s[2], s[3], s[4]);
        let l2 = spec_le32(s[5], s[6], s[7], s[8]);
        if s.len() != 9 + l1 + l2 {
            None
        } else {
            Some((s.subrange(9, 9 + l1 as int), s.subrange(9 + l1 as int, s.len() as int)))
        }
    }
}

/// Write a greeting.
pub fn encode_hello(hello: &ClientHello) -> (r: Vec<u8>)
    requires
        hello.user_id@.len() < 0x1_0000_0000,
        hello.ticket@.len() < 0x1_0000_0000,
    ensures
        r@ == spec_enc_hello(hello.user_id@, hello.ticket@),
{
    let mut out: Vec<u8> = Vec::new();
    out.push(1u8);
    push_u32_le(&mut out, hello.user_id.len() as u32);
    push_u32_le(&mut out, hello.ticket.len() as u32);
    append_bytes(&mut out, &hello.user_id);
    append_bytes(&mut out, &hello.ticket);
    assert(out@ =~= spec_enc_hello(hello.user_id@, hello.ticket@));
    out
}

/// Read a greeting back.
pub fn decode_hello(s: &[u8]) -> (r: Option<ClientHello>)
    ensures
        match r {
            Some(h) => spec_dec_hello(s@) == Some((h.user_id@, h.ticket@)),
            None => spec_dec_hello(s@) is None,
        },
{
    let n = s.len();
    if n < 9 {
        return None;
    }
    if s[0] != 1 {
        return None;
    }
    let l1 = read_u32_le(s, 1);
    let l2 = read_u32_le(s, 5);
    let total: u64 = 9u64 + (l1 as u64) + (l2 as u64);
    if (n as u64) != total {
        return None;
    }
    let user_id = copy_range(s, 9, l1 as usize);
    let ticket = copy_range(s, 9 + (l1 as usize), l2 as usize);
    proof {
        assert(s@.subrange(9 + l1 as int, s@.len() as int) =~= s@.subrange(
            9 + l1 as int,
            9 + l1 + l2 as int,
        ));
    }
    Some(ClientHello { user_id, ticket })
}

/// A greeting survives the trip through its byte form unchanged.
pub proof fn lemma_hello_round_trip(user_id: Seq<u8>, ticket: Seq<u8>)
    requires
        user_id.len() < 0x1_0000_0000,
        ticket.len() < 0x1_0000_0000,
    ensures
        spec_dec_hello(spec_enc_hello(user_id, ticket)) == Some((user_id, ticket)),
{
    let s = spec_enc_hello(user_id, ticket);
    assert(spec_le32(s[1], s[2], s[3], s[4]) == user_id.len() as u32) by {
        crate::wire::lemma_le32_round_trip(user_id.len() as u32);
        assert(s.subrange(1, 5) =~= spec_u32_bytes(user_id.len() as u32));
    }
    assert(spec_le32(s[5], s[6], s[7], s[8]) == ticket.len() as u32) by {
        crate::wire::lemma_le32_round_trip(ticket.len() as u32);
        assert(s.subrange(5, 9) =~= spec_u32_bytes(ticket.len() as u32));
    }
    assert(s.subrange(9, 9 + user_id.len() as int) =~= user_id);
    assert(s.subrange(9 + user_id.len() as int, s.len() as int) =~= ticket);
}

/// Classify the first message of a session: only a binary greeting is
/// accepted; a closed stream and anything else are distinct errors.
pub fn classify_hello(msg: Option<WsMessage>) -> (r: Result<ClientHello, HandshakeError>)
    ensures
        msg is None <==> r == Err::<ClientHello, HandshakeError>(HandshakeError::StreamClosed),
        match r {
            Ok(h) => msg matches Some(WsMessage::Binary { payload }) && spec_dec_hello(payload@)
                == Some((h.user_id@, h.ticket@)),
            Err(e) => e is StreamClosed || (match msg {
                Some(WsMessage::Binary { payload }) => spec_dec_hello(payload@) is None,
                Some(_) => true,
                None => false,
            }),
        },
{
    match msg {
        None => Err(HandshakeError::StreamClosed),
        Some(WsMessage::Binary { payload }) => match decode_hello(payload.as_slice()) {
            Some(h) => Ok(h),
            None => Err(HandshakeError::UnexpectedPacket),
        },
        Some(_) => Err(HandshakeError::UnexpectedPacket),
    }
}

/// What the background receive pump does with one socket message.
pub enum PumpAction {
    /// Answer a ping with a pong carrying the same payload.
    ReplyPong { payload: Vec<u8> },
    /// The stream ended; stop the pump cleanly.
    Stop,
    /// Traffic the pump does not handle; surface an error.
    Unhandled,
}

/// The receive pump's decision for one message: pings are answered, the
/// end of the stream stops the pump, anything else is unhandled traffic.
pub fn pump_step(msg: Option<WsMessage>) -> (r: PumpAction)
    ensures
        match msg {
            None => r is Stop,
            Some(WsMessage::Ping { payload }) => (r matches PumpAction::ReplyPong {
                payload: p,
            } && p@ == payload@),
            Some(_) => r is Unhandled,
        },
{
    match msg {
        None => PumpAction::Stop,
        Some(WsMessage::Ping { payload }) => PumpAction::ReplyPong { payload },
        Some(_) => PumpAction::Unhandled,
    }
}

fn append_bytes(out: &mut Vec<u8>, b: &Vec<u8>)
    ensures
        final(out)@ == old(out)@ + b@,
{
    let mut i: usize = 0;
    while i < b.len()
        invariant
            0 <= i <= b@.len(),
            out@ == old(out)@ + b@.subrange(0, i as int),
        decreases b@.len() - i,
    {
        out.push(b[i]);
        i = i + 1;
        assert(out@ =~= old(out)@ + b@.subrange(0, i as int));
    }
    assert(out@ =~= old(out)@ + b@);
}

fn copy_range(s: &[u8], start: usize, len: usize) -> (r: Vec<u8>)
    requires
        start + len <= s@.len(),
    ensures
        r@ == s@.subrange(start as int, start + len),
{
    let slen = s.len();
    let mut out: Vec<u8> = Vec::new();
    let mut i: usize = 0;
    while i < len
        invariant
            start + len <= slen == s@.len(),
            0 <= i <= len,
            out@ == s@.subrange(start as int, start + i),
        decreases len - i,
    {
        out.push(s[start + i]);
        i = i + 1;
        assert(out@ =~= s@.subrange(start as int, start + i));
    }
    out
}

} // verus!
