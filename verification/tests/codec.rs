use tango_lockstep::packet::{InputPacket, RoundControl, WinnerReport, WireMessage};
use tango_lockstep::replay::{GameIdentity, ReplayHeader, ReplayLog, ReplayRecord};
use tango_lockstep::replay_file::{decode_replay, encode_replay, ReplayFileError};
use tango_lockstep::round::{Outcome, Side, Winner};
use tango_lockstep::signaling::{
    classify_hello, decode_hello, encode_hello, pump_step, resumption_header_value, ClientHello,
    HandshakeError, PumpAction, WsMessage,
};
use tango_lockstep::wire::{decode, encode, DecodeError};

#[test]
fn input_packet_encodes_to_expected_bytes() {
    let m = WireMessage::Input(InputPacket {
        tick: 1,
        input_bits: 0x0203,
        checksum: None,
        rng_draw: None,
    });
    assert_eq!(encode(&m), vec![1, 1, 0, 0, 0, 3, 2, 0]);
}

#[test]
fn input_packet_with_checksum_and_rng_encodes_to_expected_bytes() {
    let m = WireMessage::Input(InputPacket {
        tick: 0x01020304,
        input_bits: 0xABCD,
        checksum: Some(0x11223344),
        rng_draw: Some(0x55667788),
    });
    assert_eq!(
        encode(&m),
        vec![
            1, 4, 3, 2, 1, 0xCD, 0xAB, 3, 0x44, 0x33, 0x22, 0x11, 0x88, 0x77, 0x66, 0x55
        ]
    );
}

#[test]
fn wire_round_trip_every_variant() {
    let msgs = vec![
        WireMessage::Input(InputPacket { tick: 7, input_bits: 42, checksum: None, rng_draw: None }),
        WireMessage::Input(InputPacket {
            tick: 8,
            input_bits: 0,
            checksum: Some(0xDEADBEEF),
            rng_draw: None,
        }),
        WireMessage::Input(InputPacket {
            tick: 9,
            input_bits: 0xFFFF,
            checksum: None,
            rng_draw: Some(3),
        }),
        WireMessage::Input(InputPacket {
            tick: u32::MAX,
            input_bits: 1,
            checksum: Some(0),
            rng_draw: Some(u32::MAX),
        }),
        WireMessage::Control(RoundControl::StartReady),
        WireMessage::Control(RoundControl::Ending { tick: 100 }),
        WireMessage::Control(RoundControl::Outcome { tick: 100, report: WinnerReport::Mine }),
        WireMessage::Control(RoundControl::Outcome { tick: 3, report: WinnerReport::Theirs }),
        WireMessage::Control(RoundControl::Outcome { tick: 4, report: WinnerReport::Draw }),
        WireMessage::Heartbeat,
    ];
    for m in msgs {
        let bytes = encode(&m);
        assert_eq!(decode(&bytes), Ok(Some(m)));
    }
}

#[test]
fn unknown_tags_are_ignored_not_fatal() {
    assert_eq!(decode(&[9, 1, 2, 3]), Ok(None));
    assert_eq!(decode(&[0xFF]), Ok(None));
    // unknown control kind: ignored for forward compatibility
    assert_eq!(decode(&[2, 7, 0, 0, 0, 0]), Ok(None));
}

#[test]
fn truncated_and_malformed_messages_are_errors() {
    assert_eq!(decode(&[]), Err(DecodeError::Truncated));
    assert_eq!(decode(&[1, 0, 0]), Err(DecodeError::Truncated));
    // flags promise a checksum that is not there
    assert_eq!(decode(&[1, 0, 0, 0, 0, 0, 0, 1]), Err(DecodeError::Truncated));
    assert_eq!(decode(&[2, 2, 0, 0, 0, 0]), Err(DecodeError::Truncated));
    // report byte out of range
    assert_eq!(decode(&[2, 2, 0, 0, 0, 0, 9]), Err(DecodeError::Malformed));
}

fn sample_log() -> ReplayLog {
    let mut log = ReplayLog::new(ReplayHeader {
        game: GameIdentity {
            rom_code: [0x41, 0x33, 0x58, 0x4A],
            revision: 1,
            rom_crc32: 0xfd57493b,
        },
        seed: 77,
        ts: 1_699_999_999_123,
        round: 2,
        link_code: b"abcd".to_vec(),
        snapshot: vec![1, 2, 3, 4, 5],
        outcome: None,
    });
    for t in 0..3u32 {
        log.append(
            InputPacket { tick: t, input_bits: t as u16, checksum: Some(t), rng_draw: None },
            InputPacket { tick: t, input_bits: 0x99, checksum: Some(t), rng_draw: Some(t + 1) },
        );
    }
    log.finalize(Outcome::Decided { winner: Winner::Draw });
    log
}

#[test]
fn replay_file_round_trip() {
    let log = sample_log();
    let bytes = encode_replay(&log);
    let back = decode_replay(&bytes).expect("valid file");
    assert_eq!(back.header.game.rom_code, log.header.game.rom_code);
    assert_eq!(back.header.game.revision, log.header.game.revision);
    assert_eq!(back.header.game.rom_crc32, log.header.game.rom_crc32);
    assert_eq!(back.header.seed, log.header.seed);
    assert_eq!(back.header.ts, log.header.ts);
    assert_eq!(back.header.round, log.header.round);
    assert_eq!(back.header.link_code, log.header.link_code);
    assert_eq!(back.header.snapshot, log.header.snapshot);
    assert_eq!(back.header.outcome, log.header.outcome);
    assert_eq!(back.records, log.records);
}

#[test]
fn replay_file_round_trip_all_outcomes() {
    let outcomes = vec![
        None,
        Some(Outcome::Decided { winner: Winner::Local }),
        Some(Outcome::Decided { winner: Winner::Remote }),
        Some(Outcome::Decided { winner: Winner::Draw }),
        Some(Outcome::Desync { tick: 50 }),
        Some(Outcome::Forfeit { disconnected: Side::Local }),
        Some(Outcome::Forfeit { disconnected: Side::Remote }),
        Some(Outcome::Forfeit { disconnected: Side::Unknown }),
    ];
    for outcome in outcomes {
        let mut log = sample_log();
        log.header.outcome = outcome;
        let bytes = encode_replay(&log);
        let back = decode_replay(&bytes).expect("valid file");
        assert_eq!(back.header.outcome, outcome);
    }
}

#[test]
fn replay_file_rejects_bad_magic_truncation_and_bad_outcome() {
    let log = sample_log();
    let bytes = encode_replay(&log);
    let mut bad_magic = bytes.clone();
    bad_magic[0] = b'X';
    assert!(matches!(decode_replay(&bad_magic), Err(ReplayFileError::BadMagic)));
    let truncated = &bytes[..bytes.len() - 1];
    assert!(matches!(decode_replay(truncated), Err(ReplayFileError::Truncated)));
    assert!(matches!(decode_replay(&bytes[..10]), Err(ReplayFileError::Truncated)));
    let mut bad_outcome = bytes.clone();
    bad_outcome[29] = 200;
    assert!(matches!(decode_replay(&bad_outcome), Err(ReplayFileError::Malformed)));
}

#[test]
fn empty_replay_file_round_trip() {
    let mut log = sample_log();
    log.records.clear();
    log.header.link_code.clear();
    log.header.snapshot.clear();
    let bytes = encode_replay(&log);
    assert_eq!(bytes.len(), 46);
    let back = decode_replay(&bytes).expect("valid file");
    assert!(back.records.is_empty());
    assert!(back.header.link_code.is_empty());
}

#[test]
fn a_record_survives_the_file_byte_for_byte() {
    let log = sample_log();
    let bytes = encode_replay(&log);
    let back = decode_replay(&bytes).expect("valid file");
    let rec: &ReplayRecord = &back.records[1];
    assert_eq!(rec.tick, 1);
    assert_eq!(rec.local.input_bits, 1);
    assert_eq!(rec.local.checksum, Some(1));
    assert_eq!(rec.remote.rng_draw, Some(2));
}

#[test]
fn resumption_header_is_absent_for_empty_ticket() {
    assert_eq!(resumption_header_value(&Vec::new()), None);
}

#[test]
fn resumption_header_encodes_the_ticket() {
    let header = resumption_header_value(&b"hello".to_vec()).expect("non-empty ticket");
    assert_eq!(header, "Nettai-Resumption aGVsbG8");
    // url-safe alphabet, no padding
    let header2 = resumption_header_value(&vec![0xFF, 0xFE]).expect("non-empty ticket");
    assert_eq!(header2, "Nettai-Resumption __4");
}

#[test]
fn hello_round_trip() {
    let hello = ClientHello { user_id: vec![1, 2, 3], ticket: b"tick".to_vec() };
    let bytes = encode_hello(&hello);
    let back = decode_hello(&bytes).expect("valid greeting");
    assert_eq!(back.user_id, vec![1, 2, 3]);
    assert_eq!(back.ticket, b"tick".to_vec());
}

#[test]
fn hello_classification_errors() {
    assert!(matches!(classify_hello(None), Err(HandshakeError::StreamClosed)));
    assert!(matches!(
        classify_hello(Some(WsMessage::Text { text: "hi".to_owned() })),
        Err(HandshakeError::UnexpectedPacket)
    ));
    assert!(matches!(
        classify_hello(Some(WsMessage::Binary { payload: vec![0, 0] })),
        Err(HandshakeError::UnexpectedPacket)
    ));
    let hello = ClientHello { user_id: vec![9], ticket: vec![] };
    let ok = classify_hello(Some(WsMessage::Binary { payload: encode_hello(&hello) }))
        .expect("greeting accepted");
    assert_eq!(ok.user_id, vec![9]);
    assert!(ok.ticket.is_empty());
}

#[test]
fn pump_answers_pings_and_stops_on_close() {
    match pump_step(Some(WsMessage::Ping { payload: vec![7, 8] })) {
        PumpAction::ReplyPong { payload } => assert_eq!(payload, vec![7, 8]),
        other => panic!("expected pong, got {:?}", marker(&other)),
    }
    assert!(matches!(pump_step(None), PumpAction::Stop));
    assert!(matches!(
        pump_step(Some(WsMessage::Binary { payload: vec![] })),
        PumpAction::Unhandled
    ));
    assert!(matches!(pump_step(Some(WsMessage::Close)), PumpAction::Unhandled));
}

fn marker(a: &PumpAction) -> &'static str {
    match a {
        PumpAction::ReplyPong { .. } => "ReplyPong",
        PumpAction::Stop => "Stop",
        PumpAction::Unhandled => "Unhandled",
    }
}
