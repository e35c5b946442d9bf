use tango_lockstep::packet::{InputPacket, WinnerReport};
use tango_lockstep::replay::{GameIdentity, ReplayHeader, ReplayLog, ReplayPlayer, replay_through};
use tango_lockstep::rng::{authority_run, follower_run, Role, SharedRng};
use tango_lockstep::round::{Outcome, RoundEvent, RoundMachine, RoundState, Side, Winner};
use tango_lockstep::session::{MatchSession, SessionAction, SessionEvent};
use tango_lockstep::sync::{PushResult, ResolveResult, Synchronizer};

fn test_header() -> ReplayHeader {
    ReplayHeader {
        game: GameIdentity {
            rom_code: [0x41, 0x36, 0x42, 0x45],
            revision: 0,
            rom_crc32: 0x0be4410a,
        },
        seed: 0x1234,
        ts: 1_700_000_000_000,
        round: 1,
        link_code: b"test".to_vec(),
        snapshot: vec![0xaa, 0xbb],
        outcome: None,
    }
}

/// Feed every `Send` action of one peer into the other, returning whatever
/// the receiving peer decides in response.
fn deliver(actions: &[SessionAction], to: &mut MatchSession) -> Vec<SessionAction> {
    let mut out = Vec::new();
    for a in actions {
        if let SessionAction::Send { bytes } = a {
            out.extend(to.on_event(SessionEvent::MessageReceived { bytes: bytes.clone() }));
        }
    }
    out
}

fn injected(actions: &[SessionAction]) -> Option<InputPacket> {
    for a in actions {
        if let SessionAction::Inject { packet } = a {
            return Some(*packet);
        }
    }
    None
}

fn start_round(a: &mut MatchSession, b: &mut MatchSession) {
    let sa = a.on_event(SessionEvent::LocalStartReady);
    deliver(&sa, b);
    let sb = b.on_event(SessionEvent::LocalStartReady);
    deliver(&sb, a);
    assert!(matches!(a.round.state, RoundState::InProgress));
    assert!(matches!(b.round.state, RoundState::InProgress));
}

/// Exchange one tick between the two sessions and return the packets each
/// side injected.
fn exchange_tick(
    a: &mut MatchSession,
    b: &mut MatchSession,
    bits: u16,
    cs_a: Option<u32>,
    cs_b: Option<u32>,
) -> (Vec<SessionAction>, Vec<SessionAction>) {
    let from_a = a.on_event(SessionEvent::LocalInput { input_bits: bits, checksum: cs_a });
    deliver(&from_a, b);
    let from_b = b.on_event(SessionEvent::LocalInput { input_bits: bits, checksum: cs_b });
    deliver(&from_b, a);
    // the packet from b arrived after a's first poll: poll again
    let re_a = a.on_event(SessionEvent::LocalInput { input_bits: bits, checksum: cs_a });
    (re_a, from_b)
}

#[test]
fn both_peers_must_signal_before_round_starts() {
    let mut a = MatchSession::new(Role::Authority, 7, 8, test_header());
    let b = MatchSession::new(Role::Follower, 7, 8, test_header());
    assert!(matches!(a.round.state, RoundState::AwaitingStart));
    let _ = a.on_event(SessionEvent::LocalStartReady);
    // only one peer signalled: still awaiting
    assert!(matches!(a.round.state, RoundState::AwaitingStart));
    drop(b);
}

#[test]
fn full_match_hundred_ticks_winner_local() {
    let mut a = MatchSession::new(Role::Authority, 99, 8, test_header());
    let mut b = MatchSession::new(Role::Follower, 99, 8, test_header());
    start_round(&mut a, &mut b);
    for t in 0..100u32 {
        let (re_a, from_b) = exchange_tick(&mut a, &mut b, t as u16, Some(0x5555), Some(0x5555));
        let pa = injected(&re_a).expect("a resolves the tick");
        let pb = injected(&from_b).expect("b resolves the tick");
        assert_eq!(pa.tick, t);
        assert_eq!(pb.tick, t);
    }
    // both rounds conclude; each side reports its own perspective
    let ea = a.on_event(SessionEvent::LocalEnding);
    deliver(&ea, &mut b);
    let eb = b.on_event(SessionEvent::LocalEnding);
    deliver(&eb, &mut a);
    let oa = a.on_event(SessionEvent::LocalOutcome { report: WinnerReport::Mine });
    deliver(&oa, &mut b);
    let ob = b.on_event(SessionEvent::LocalOutcome { report: WinnerReport::Theirs });
    let ended_a = deliver(&ob, &mut a);
    assert!(ended_a.iter().any(|x| matches!(
        x,
        SessionAction::Ended { outcome: Outcome::Decided { winner: Winner::Local } }
    )));
    assert!(matches!(
        a.round.state,
        RoundState::Ended { outcome: Outcome::Decided { winner: Winner::Local } }
    ));
    assert!(matches!(
        b.round.state,
        RoundState::Ended { outcome: Outcome::Decided { winner: Winner::Remote } }
    ));
    assert_eq!(a.replay.records.len(), 100);
    assert_eq!(b.replay.records.len(), 100);
    assert_eq!(
        a.replay.header.outcome,
        Some(Outcome::Decided { winner: Winner::Local })
    );
    // no desync was flagged
    assert!(!matches!(a.replay.header.outcome, Some(Outcome::Desync { .. })));
}

#[test]
fn checksum_mismatch_at_tick_fifty_is_desync() {
    let mut a = MatchSession::new(Role::Authority, 3, 8, test_header());
    let mut b = MatchSession::new(Role::Follower, 3, 8, test_header());
    start_round(&mut a, &mut b);
    for t in 0..50u32 {
        exchange_tick(&mut a, &mut b, t as u16, Some(0x7777), Some(0x7777));
    }
    let (re_a, from_b) = exchange_tick(&mut a, &mut b, 50, Some(0xAAAA), Some(0xBBBB));
    assert!(from_b.iter().any(|x| matches!(
        x,
        SessionAction::Ended { outcome: Outcome::Desync { tick: 50 } }
    )));
    assert!(re_a.iter().any(|x| matches!(
        x,
        SessionAction::Ended { outcome: Outcome::Desync { tick: 50 } }
    )));
    // the replay is truncated at tick 50: exactly the 50 agreed ticks, no
    // fabricated later records
    assert_eq!(a.replay.records.len(), 50);
    assert_eq!(b.replay.records.len(), 50);
    assert_eq!(a.replay.header.outcome, Some(Outcome::Desync { tick: 50 }));
}

#[test]
fn disconnect_in_progress_is_forfeit_with_thirty_records() {
    let mut a = MatchSession::new(Role::Authority, 5, 8, test_header());
    let mut b = MatchSession::new(Role::Follower, 5, 8, test_header());
    start_round(&mut a, &mut b);
    for t in 0..30u32 {
        exchange_tick(&mut a, &mut b, t as u16, None, None);
    }
    let acts = a.on_event(SessionEvent::Disconnected { side: Side::Remote });
    assert!(acts.iter().any(|x| matches!(
        x,
        SessionAction::Ended { outcome: Outcome::Forfeit { disconnected: Side::Remote } }
    )));
    assert!(matches!(
        a.round.state,
        RoundState::Ended { outcome: Outcome::Forfeit { disconnected: Side::Remote } }
    ));
    assert_eq!(a.replay.records.len(), 30);
}

#[test]
fn stall_is_raised_exactly_once_per_stalled_tick() {
    let mut a = MatchSession::new(Role::Authority, 5, 8, test_header());
    let mut b = MatchSession::new(Role::Follower, 5, 8, test_header());
    start_round(&mut a, &mut b);
    for t in 0..12u32 {
        exchange_tick(&mut a, &mut b, t as u16, None, None);
    }
    // tick 12: a's packet goes out but b's never arrives
    let sent = a.on_event(SessionEvent::LocalInput { input_bits: 12, checksum: None });
    assert!(sent.iter().any(|x| matches!(x, SessionAction::Send { .. })));
    let first = a.on_event(SessionEvent::WaitTimeout);
    assert_eq!(first.iter().filter(|x| matches!(x, SessionAction::Stall)).count(), 1);
    // further polls for the same stalled tick stay silent
    let second = a.on_event(SessionEvent::WaitTimeout);
    assert!(second.is_empty());
    let third = a.on_event(SessionEvent::WaitTimeout);
    assert!(third.is_empty());
}

#[test]
fn ended_session_ignores_everything() {
    let mut a = MatchSession::new(Role::Authority, 5, 8, test_header());
    let mut b = MatchSession::new(Role::Follower, 5, 8, test_header());
    start_round(&mut a, &mut b);
    let _ = a.on_event(SessionEvent::Disconnected { side: Side::Unknown });
    let before = a.replay.records.len();
    assert!(a.on_event(SessionEvent::LocalInput { input_bits: 1, checksum: None }).is_empty());
    assert!(a.on_event(SessionEvent::LocalStartReady).is_empty());
    assert!(a.on_event(SessionEvent::WaitTimeout).is_empty());
    assert_eq!(a.replay.records.len(), before);
}

#[test]
fn round_machine_ended_is_terminal() {
    let mut m = RoundMachine::new();
    m.step(RoundEvent::LocalStartReady);
    m.step(RoundEvent::RemoteStartReady);
    assert!(matches!(m.state, RoundState::InProgress));
    m.step(RoundEvent::Desync { tick: 9 });
    let ended = m;
    for ev in [
        RoundEvent::LocalStartReady,
        RoundEvent::RemoteStartReady,
        RoundEvent::LocalEnding { tick: 10 },
        RoundEvent::LocalOutcome { tick: 10, report: WinnerReport::Mine },
        RoundEvent::RemoteOutcome { tick: 10, report: WinnerReport::Theirs },
        RoundEvent::Disconnected { side: Side::Local },
    ] {
        let mut again = ended;
        again.step(ev);
        assert_eq!(again, ended);
    }
}

#[test]
fn disagreeing_winner_reports_are_a_desync() {
    let mut m = RoundMachine::new();
    m.step(RoundEvent::LocalStartReady);
    m.step(RoundEvent::RemoteStartReady);
    m.step(RoundEvent::LocalEnding { tick: 40 });
    m.step(RoundEvent::LocalOutcome { tick: 40, report: WinnerReport::Mine });
    m.step(RoundEvent::RemoteOutcome { tick: 41, report: WinnerReport::Mine });
    assert!(matches!(
        m.state,
        RoundState::Ended { outcome: Outcome::Desync { tick: 41 } }
    ));
}

#[test]
fn shared_rng_follower_matches_authority_every_tick() {
    let seed = 0xDEAD_BEEF;
    let (draws, auth_final) = authority_run(seed, 64);
    let follower_states = follower_run(seed, &draws);
    assert_eq!(follower_states.len(), 64);
    for t in 0..64 {
        // the follower's state after tick t is the authority's state after
        // tick t (the draw and the new state coincide)
        assert_eq!(follower_states[t], draws[t]);
    }
    assert_eq!(auth_final.value, draws[63]);
}

#[test]
fn shared_rng_in_session_stays_equal() {
    let mut a = MatchSession::new(Role::Authority, 0xCAFE, 8, test_header());
    let mut b = MatchSession::new(Role::Follower, 0xCAFE, 8, test_header());
    start_round(&mut a, &mut b);
    for t in 0..20u32 {
        exchange_tick(&mut a, &mut b, t as u16, None, None);
        assert_eq!(a.rng.value, b.rng.value);
    }
}

#[test]
fn rng_draw_is_deterministic_in_seed_and_tick() {
    let (d1, _) = authority_run(42, 16);
    let (d2, _) = authority_run(42, 16);
    assert_eq!(d1, d2);
    let mut one = SharedRng::new(42);
    let first = one.draw();
    assert_eq!(first, d1[0]);
}

#[test]
fn replay_pipeline_is_deterministic() {
    let mut log = ReplayLog::new(test_header());
    for t in 0..5u32 {
        let local = InputPacket { tick: t, input_bits: t as u16, checksum: Some(1), rng_draw: None };
        let remote = InputPacket { tick: t, input_bits: 7, checksum: Some(1), rng_draw: Some(t) };
        log.append(local, remote);
    }
    let run1 = replay_through(&log);
    let run2 = replay_through(&log);
    assert_eq!(run1, run2);
    assert_eq!(run1, log.records);
}

#[test]
fn replay_player_yields_recorded_remotes_in_order_and_discards_sends() {
    let mut log = ReplayLog::new(test_header());
    for t in 0..3u32 {
        let local = InputPacket { tick: t, input_bits: 0, checksum: None, rng_draw: None };
        let remote = InputPacket { tick: t, input_bits: 10 + t as u16, checksum: None, rng_draw: None };
        log.append(local, remote);
    }
    let mut player = ReplayPlayer::new(log.records.clone());
    assert!(player.send(&vec![1, 2, 3]).is_ok());
    for t in 0..3u32 {
        let p = player.receive().expect("recorded packet");
        assert_eq!(p.tick, t);
        assert_eq!(p.input_bits, 10 + t as u16);
    }
    assert!(player.receive().is_none());
}

#[test]
fn recorded_packets_carry_their_tick() {
    let mut a = MatchSession::new(Role::Authority, 1, 8, test_header());
    let mut b = MatchSession::new(Role::Follower, 1, 8, test_header());
    start_round(&mut a, &mut b);
    for t in 0..10u32 {
        exchange_tick(&mut a, &mut b, (3 * t) as u16, None, None);
    }
    for (i, rec) in a.replay.records.iter().enumerate() {
        assert_eq!(rec.tick, i as u32);
        assert_eq!(rec.local.tick, i as u32);
        assert_eq!(rec.remote.tick, i as u32);
    }
}

#[test]
fn ticks_resolve_with_their_tick_under_varied_delivery_timing() {
    // interleave send/receive timing differently per tick, driven by the
    // library's own deterministic generator
    let mut shuffle = SharedRng::new(0x1357);
    let mut a = MatchSession::new(Role::Authority, 2, 8, test_header());
    let mut b = MatchSession::new(Role::Follower, 2, 8, test_header());
    start_round(&mut a, &mut b);
    for t in 0..64u32 {
        let late_delivery = shuffle.draw() % 2 == 0;
        let from_a = a.on_event(SessionEvent::LocalInput { input_bits: 1, checksum: None });
        if late_delivery {
            // b polls before a's packet arrives: not ready yet
            let early = b.on_event(SessionEvent::LocalInput { input_bits: 2, checksum: None });
            assert!(injected(&early).is_none());
            deliver(&early, &mut a);
            deliver(&from_a, &mut b);
            let re_b = b.on_event(SessionEvent::LocalInput { input_bits: 2, checksum: None });
            let pb = injected(&re_b).expect("b resolves after arrival");
            assert_eq!(pb.tick, t);
        } else {
            deliver(&from_a, &mut b);
            let from_b = b.on_event(SessionEvent::LocalInput { input_bits: 2, checksum: None });
            let pb = injected(&from_b).expect("b resolves immediately");
            assert_eq!(pb.tick, t);
            deliver(&from_b, &mut a);
        }
        let re_a = a.on_event(SessionEvent::LocalInput { input_bits: 1, checksum: None });
        let pa = injected(&re_a).expect("a resolves the tick");
        assert_eq!(pa.tick, t);
    }
    assert_eq!(a.replay.records.len(), 64);
    assert_eq!(b.replay.records.len(), 64);
}

#[test]
fn synchronizer_rejects_duplicates_gaps_and_overflow() {
    let mut s = Synchronizer::new(2);
    let p = |tick: u32| InputPacket { tick, input_bits: 0, checksum: None, rng_draw: None };
    assert_eq!(s.push_remote(p(0)), PushResult::Accepted);
    assert_eq!(s.push_remote(p(0)), PushResult::Discarded);
    assert_eq!(s.push_remote(p(2)), PushResult::OutOfOrder);
    assert_eq!(s.push_remote(p(1)), PushResult::Accepted);
    assert_eq!(s.push_remote(p(2)), PushResult::BufferFull);
    let local = s.local_packet(5, None, None);
    assert_eq!(local.tick, 0);
    match s.try_resolve(local) {
        ResolveResult::Resolved { local: l, remote } => {
            assert_eq!(l.tick, 0);
            assert_eq!(remote.tick, 0);
        }
        other => panic!("expected resolution, got {:?}", other),
    }
    assert_eq!(s.next_tick, 1);
}

#[test]
fn synchronizer_not_ready_then_desync() {
    let mut s = Synchronizer::new(4);
    let local = s.local_packet(1, Some(0xAAAA), None);
    assert!(matches!(s.try_resolve(local), ResolveResult::NotReady));
    let remote = InputPacket { tick: 0, input_bits: 9, checksum: Some(0xBBBB), rng_draw: None };
    assert_eq!(s.push_remote(remote), PushResult::Accepted);
    assert!(matches!(s.try_resolve(local), ResolveResult::Desync { tick: 0 }));
    // nothing was committed
    assert_eq!(s.next_tick, 0);
}
