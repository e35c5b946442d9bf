//! One match session: the engine's reaction to every hook and transport
//! event, as a pure state-plus-event step function.
//!
//! The surrounding program performs the actions this module decides on (send
//! bytes, inject a packet into the emulator, raise a stall, tear down) and
//! hands back the next event; everything that decides lives here.  The
//! emulator thread is never blocked here: waiting is the caller's, bounded,
//! and reported back as a timeout event.

use vstd::prelude::*;
use crate::packet::{InputPacket, RoundControl, WinnerReport, WireMessage};
use crate::replay::{ReplayHeader, ReplayLog};
use crate::rng::{Role, SharedRng};
use crate::round::{Outcome, RoundEvent, RoundMachine, RoundState, Side};
use crate::sync::{PushResult, ResolveResult, Synchronizer};
use crate::wire;

verus! {

/// What the session asks its caller to do in response to an event.
#[derive(Clone, Debug, PartialEq, Eq)]
pub enum SessionAction {
    /// Hand these bytes to the transport, immediately and without waiting.
    Send { bytes: Vec<u8> },
    /// Inject this remote packet into the emulator for the current tick.
    Inject { packet: InputPacket },
    /// The bounded wait for the current tick's remote packet expired; the
    /// caller decides whether to keep waiting or escalate.  Raised exactly
    /// once per stalled tick.
    Stall,
    /// The match is over; the replay log is finalized with this outcome.
    Ended { outcome: Outcome },
}

/// Everything the surrounding program can report to the session.
#[derive(Clone, Debug, PartialEq, Eq)]
pub enum SessionEvent {
    /// The local round-start hook completed.
    LocalStartReady,
    /// The input-read hook fired: the sampled local pad state and the
    /// optional state digest for this tick.  Re-sent unchanged when polling
    /// again for the same tick.
    LocalInput { input_bits: u16, checksum: Option<u32> },
    /// The bounded wait for the current tick's remote packet timed out.
    WaitTimeout,
    /// The local hook reported the round is concluding.
    LocalEnding,
    /// The local hook reported the round outcome, from this side's
    /// perspective.
    LocalOutcome { report: WinnerReport },
    /// One byte message arrived from the transport.
    MessageReceived { bytes: Vec<u8> },
    /// The transport reported a disconnection, attributed when known.
    Disconnected { side: Side },
}

/// The state of one match session, from connection establishment to match
/// end.
pub struct MatchSession {
    /// Which side of the shared-RNG scheme this peer plays; fixed at setup.
    pub role: Role,
    pub round: RoundMachine,
    pub sync: Synchronizer,
    pub rng: SharedRng,
    pub replay: ReplayLog,
    /// The local packet already built (and sent) for the current tick, kept
    /// so that re-polling the same tick does not draw from the shared RNG
    /// or send again.
    pub pending_local: Option<InputPacket>,
}

impl MatchSession {
    /// Everything the session promises to keep true between events.
    pub open spec fn wf(self) -> bool {
        &&& self.sync.wf()
        &&& self.replay.wf()
        // every resolved tick is recorded: the log length is the tick counter
        &&& self.replay.records@.len() == self.sync.next_tick
        // the current tick's packet, once built, is for the current tick
        &&& self.pending_local matches Some(p) ==> p.tick == self.sync.next_tick
        // the log is finalized exactly when the round has ended, and with
        // the round's own outcome
        &&& self.round.state matches RoundState::Ended { outcome } ==> self.replay.header.outcome
            == Some(outcome)
        &&& !(self.round.state is Ended) ==> self.replay.header.outcome is None
    }

    /// A fresh session.  `header` describes the round about to run and must
    /// not yet carry an outcome; `capacity` bounds the pending buffer.
    pub fn new(role: Role, seed: u32, capacity: usize, header: ReplayHeader) -> (r: MatchSession)
        requires
            capacity >= 1,
            header.outcome is None,
        ensures
            r.wf(),
            r.role == role,
            r.rng.value == seed,
            r.round.state is AwaitingStart,
            r.sync.next_tick == 0,
            r.replay.records@.len() == 0,
    {
        MatchSession {
            role,
            round: RoundMachine::new(),
            sync: Synchronizer::new(capacity),
            rng: SharedRng::new(seed),
            replay: ReplayLog::new(header),
            pending_local: None,
        }
    }

    /// The local packet the session builds for the current tick: the
    /// sampled input while the round is in progress (neutral input while it
    /// drains), the given digest, and — on the authority — the next shared
    /// RNG draw.
    pub open spec fn spec_built_packet(self, bits: u16, cs: Option<u32>) -> InputPacket {
        InputPacket {
            tick: self.sync.next_tick,
            input_bits: if self.round.state is InProgress {
                bits
            } else {
                0
            },
            checksum: cs,
            rng_draw: if self.role is Authority {
                Some(crate::rng::spec_rng_step(self.rng.value))
            } else {
                None
            },
        }
    }

    /// The shared RNG after this event built a packet (the authority draws
    /// exactly once per tick, when the tick's packet is first built).
    pub open spec fn spec_rng_after_build(self, sent: bool) -> u32 {
        if sent && self.role is Authority {
            crate::rng::spec_rng_step(self.rng.value)
        } else {
            self.rng.value
        }
    }

    /// Exactly what an input-read event does, relating the old state `o`,
    /// the new state `f`, and the emitted actions.
    pub open spec fn spec_local_input_post(
        o: MatchSession,
        f: MatchSession,
        acts: Seq<SessionAction>,
        bits: u16,
        cs: Option<u32>,
    ) -> bool {
        let state_ok = o.round.state is InProgress || o.round.state is Ending;
        if !state_ok {
            f == o && acts.len() == 0
        } else if o.sync.next_tick == 0xFFFF_FFFFu32 {
            // the tick space is exhausted: the session ends unattributed
            &&& f.round == crate::round::spec_round_step(
                o.round,
                RoundEvent::Disconnected { side: Side::Unknown },
            )
            &&& f.sync == o.sync
            &&& f.rng == o.rng
            &&& f.pending_local == o.pending_local
            &&& f.replay.records@ == o.replay.records@
            &&& acts.len() == 1
            &&& acts[0] == (SessionAction::Ended {
                outcome: Outcome::Forfeit { disconnected: Side::Unknown },
            })
        } else {
            let sent = o.pending_local is None;
            let lp = if sent {
                o.spec_built_packet(bits, cs)
            } else {
                o.pending_local->0
            };
            let rng1 = o.spec_rng_after_build(sent);
            let send_ok = sent ==> (acts[0] matches SessionAction::Send { bytes } && bytes@
                == crate::wire::spec_encode(WireMessage::Input(lp)));
            if o.sync.pending@.len() == 0 {
                // the remote packet has not arrived: send, then wait
                &&& f.sync == o.sync
                &&& f.pending_local == Some(lp)
                &&& f.rng.value == rng1
                &&& f.round == o.round
                &&& f.replay.records@ == o.replay.records@
                &&& acts.len() == (if sent {
                    1int
                } else {
                    0
                })
                &&& send_ok
            } else if crate::packet::spec_checksums_agree(lp, o.sync.pending@[0]) {
                // the tick resolves: commit, record, inject
                let rem = o.sync.pending@[0];
                &&& f.sync.next_tick == o.sync.next_tick + 1
                &&& f.sync.pending@ == o.sync.pending@.drop_first()
                &&& f.sync.stalled_tick is None
                &&& f.sync.capacity == o.sync.capacity
                &&& f.pending_local is None
                &&& f.round == o.round
                &&& f.replay.records@ == o.replay.records@.push(
                    crate::replay::ReplayRecord { tick: lp.tick, local: lp, remote: rem },
                )
                &&& f.rng.value == (if o.role is Follower {
                    match rem.rng_draw {
                        Some(d) => d,
                        None => rng1,
                    }
                } else {
                    rng1
                })
                &&& acts.len() == (if sent {
                    2int
                } else {
                    1
                })
                &&& send_ok
                &&& acts[acts.len() - 1] == (SessionAction::Inject { packet: rem })
            } else {
                // both digests present and different: desync at this tick
                &&& f.round == crate::round::spec_round_step(
                    o.round,
                    RoundEvent::Desync { tick: o.sync.next_tick },
                )
                &&& f.sync == o.sync
                &&& f.pending_local == Some(lp)
                &&& f.rng.value == rng1
                &&& f.replay.records@ == o.replay.records@
                &&& acts.len() == (if sent {
                    2int
                } else {
                    1
                })
                &&& send_ok
                &&& acts[acts.len() - 1] == (SessionAction::Ended {
                    outcome: Outcome::Desync { tick: o.sync.next_tick },
                })
            }
        }
    }

    /// Everything but the round machine (and the replay header it
    /// finalizes) is untouched.
    pub open spec fn spec_only_round_changed(o: MatchSession, f: MatchSession) -> bool {
        &&& f.sync.next_tick == o.sync.next_tick
        &&& f.sync.pending@ == o.sync.pending@
        &&& f.sync.capacity == o.sync.capacity
        &&& f.sync.stalled_tick == o.sync.stalled_tick
        &&& f.rng == o.rng
        &&& f.pending_local == o.pending_local
        &&& f.replay.records@ == o.replay.records@
        &&& f.role == o.role
    }

    /// The actions a round step emits: the `Ended` notice exactly when the
    /// step ends the round.
    pub open spec fn spec_round_acts(m: RoundMachine, ev: RoundEvent) -> Seq<SessionAction> {
        match crate::round::spec_round_step(m, ev).state {
            RoundState::Ended { outcome } => seq![SessionAction::Ended { outcome }],
            _ => Seq::empty(),
        }
    }

    /// Exactly what one received byte message does.
    pub open spec fn spec_message_post(
        o: MatchSession,
        f: MatchSession,
        acts: Seq<SessionAction>,
        bytes: Seq<u8>,
    ) -> bool {
        match crate::wire::spec_decode(bytes) {
            Err(_) => {
                // a malformed frame on the reliable channel: remote failure
                &&& f.round == crate::round::spec_round_step(
                    o.round,
                    RoundEvent::Disconnected { side: Side::Remote },
                )
                &&& MatchSession::spec_only_round_changed(o, f)
                &&& acts == MatchSession::spec_round_acts(
                    o.round,
                    RoundEvent::Disconnected { side: Side::Remote },
                )
            },
            Ok(Some(WireMessage::Input(p))) => {
                let pushed = o.sync.spec_push_result(p);
                if pushed is Accepted {
                    &&& f.sync.pending@ == o.sync.pending@.push(p)
                    &&& f.sync.next_tick == o.sync.next_tick
                    &&& f.sync.capacity == o.sync.capacity
                    &&& f.sync.stalled_tick == o.sync.stalled_tick
                    &&& f.round == o.round
                    &&& f.rng == o.rng
                    &&& f.pending_local == o.pending_local
                    &&& f.replay.records@ == o.replay.records@
                    &&& acts.len() == 0
                } else if pushed is Discarded {
                    &&& f.round == o.round
                    &&& MatchSession::spec_only_round_changed(o, f)
                    &&& f.replay.header.outcome == o.replay.header.outcome
                    &&& acts.len() == 0
                } else {
                    // a gap or an overfull buffer on an ordered channel
                    &&& f.round == crate::round::spec_round_step(
                        o.round,
                        RoundEvent::Disconnected { side: Side::Remote },
                    )
                    &&& MatchSession::spec_only_round_changed(o, f)
                    &&& acts == MatchSession::spec_round_acts(
                        o.round,
                        RoundEvent::Disconnected { side: Side::Remote },
                    )
                }
            },
            Ok(Some(WireMessage::Control(RoundControl::StartReady))) => {
                &&& f.round == crate::round::spec_round_step(
                    o.round,
                    RoundEvent::RemoteStartReady,
                )
                &&& MatchSession::spec_only_round_changed(o, f)
                &&& acts == MatchSession::spec_round_acts(o.round, RoundEvent::RemoteStartReady)
            },
            Ok(Some(WireMessage::Control(RoundControl::Ending { .. }))) => f == o && acts.len()
                == 0,
            Ok(Some(WireMessage::Control(RoundControl::Outcome { tick, report }))) => {
                &&& f.round == crate::round::spec_round_step(
                    o.round,
                    RoundEvent::RemoteOutcome { tick, report },
                )
                &&& MatchSession::spec_only_round_changed(o, f)
                &&& acts == MatchSession::spec_round_acts(
                    o.round,
                    RoundEvent::RemoteOutcome { tick, report },
                )
            },
            Ok(Some(WireMessage::Heartbeat)) => f == o && acts.len() == 0,
            Ok(None) => f == o && acts.len() == 0,
        }
    }

    /// Step the round machine and, when that ends the round, finalize the
    /// replay and emit the `Ended` action.
    fn step_round(&mut self, ev: RoundEvent, actions: &mut Vec<SessionAction>)
        requires
            old(self).wf(),
            !(old(self).round.state is Ended),
        ensures
            final(self).wf(),
            final(self).role == old(self).role,
            final(self).sync == old(self).sync,
            final(self).rng == old(self).rng,
            final(self).pending_local == old(self).pending_local,
            final(self).replay.records@ == old(self).replay.records@,
            final(self).round == crate::round::spec_round_step(old(self).round, ev),
            final(actions)@ == (match crate::round::spec_round_step(old(self).round, ev).state {
                RoundState::Ended { outcome } => old(actions)@.push(
                    SessionAction::Ended { outcome },
                ),
                _ => old(actions)@,
            }),
    {
        self.round.step(ev);
        if let RoundState::Ended { outcome } = self.round.state {
            self.replay.finalize(outcome);
            actions.push(SessionAction::Ended { outcome });
        }
    }

    /// React to one event.
    ///
    /// An ended session reacts to nothing: no action is emitted and nothing
    /// changes, in particular no further record enters the replay.  The
    /// replay grows append-only, by at most the packets this event
    /// resolved; an injected packet is always the buffered remote packet
    /// for the current tick; a stall is only ever raised for a tick it has
    /// not been raised for yet.
    pub fn on_event(&mut self, ev: SessionEvent) -> (r: Vec<SessionAction>)
        requires
            old(self).wf(),
        ensures
            final(self).wf(),
            final(self).role == old(self).role,
            old(self).round.state is Ended ==> *final(self) == *old(self) && r@.len() == 0,
            final(self).replay.records@.len() >= old(self).replay.records@.len(),
            final(self).replay.records@.subrange(0, old(self).replay.records@.len() as int) == old(
                self,
            ).replay.records@,
            forall|i: int|
                0 <= i < r@.len() ==> ((#[trigger] r@[i]) matches SessionAction::Inject { packet }
                    ==> {
                    &&& old(self).sync.pending@.len() > 0
                    &&& packet == old(self).sync.pending@[0]
                    &&& packet.tick == old(self).sync.next_tick
                }),
            forall|i: int|
                0 <= i < r@.len() ==> ((#[trigger] r@[i]) is Stall ==> old(self).sync.stalled_tick
                    != Some(old(self).sync.next_tick)),
            forall|i: int|
                0 <= i < r@.len() ==> ((#[trigger] r@[i]) matches SessionAction::Ended { outcome }
                    ==> final(self).round.state == (RoundState::Ended { outcome })),
            ev matches SessionEvent::LocalInput { input_bits, checksum } ==> (!(
            old(self).round.state is Ended) ==> MatchSession::spec_local_input_post(
                *old(self),
                *final(self),
                r@,
                input_bits,
                checksum,
            )),
            ev matches SessionEvent::MessageReceived { bytes } ==> (!(old(self).round.state
                is Ended) ==> MatchSession::spec_message_post(*old(self), *final(self), r@, bytes@)),
            ev is WaitTimeout && !(old(self).round.state is Ended) ==> {
                &&& final(self).sync.stalled_tick == Some(old(self).sync.next_tick)
                &&& final(self).sync.next_tick == old(self).sync.next_tick
                &&& final(self).sync.pending@ == old(self).sync.pending@
                &&& final(self).sync.capacity == old(self).sync.capacity
                &&& final(self).round == old(self).round
                &&& final(self).rng == old(self).rng
                &&& final(self).pending_local == old(self).pending_local
                &&& final(self).replay.records@ == old(self).replay.records@
                &&& if old(self).sync.stalled_tick != Some(old(self).sync.next_tick) {
                    r@.len() == 1 && r@[0] is Stall
                } else {
                    r@.len() == 0
                }
            },
            ev is LocalStartReady && !(old(self).round.state is Ended) ==> {
                &&& final(self).round == crate::round::spec_round_step(
                    old(self).round,
                    RoundEvent::LocalStartReady,
                )
                &&& MatchSession::spec_only_round_changed(*old(self), *final(self))
                &&& r@.len() == 1
                &&& (r@[0] matches SessionAction::Send { bytes } && bytes@
                    == crate::wire::spec_encode(
                    WireMessage::Control(RoundControl::StartReady),
                ))
            },
            ev is LocalEnding && !(old(self).round.state is Ended) ==> {
                let tick = old(self).sync.next_tick;
                let rev = RoundEvent::LocalEnding { tick };
                &&& final(self).round == crate::round::spec_round_step(old(self).round, rev)
                &&& MatchSession::spec_only_round_changed(*old(self), *final(self))
                &&& r@.len() == MatchSession::spec_round_acts(old(self).round, rev).len() + 1
                &&& r@.subrange(0, r@.len() - 1) == MatchSession::spec_round_acts(
                    old(self).round,
                    rev,
                )
                &&& (r@[r@.len() - 1] matches SessionAction::Send { bytes } && bytes@
                    == crate::wire::spec_encode(
                    WireMessage::Control(RoundControl::Ending { tick }),
                ))
            },
            ev matches SessionEvent::LocalOutcome { report } ==> (!(old(self).round.state
                is Ended) ==> {
                let tick = old(self).sync.next_tick;
                let rev = RoundEvent::LocalOutcome { tick, report };
                &&& final(self).round == crate::round::spec_round_step(old(self).round, rev)
                &&& MatchSession::spec_only_round_changed(*old(self), *final(self))
                &&& r@.len() == MatchSession::spec_round_acts(old(self).round, rev).len() + 1
                &&& r@.subrange(0, r@.len() - 1) == MatchSession::spec_round_acts(
                    old(self).round,
                    rev,
                )
                &&& (r@[r@.len() - 1] matches SessionAction::Send { bytes } && bytes@
                    == crate::wire::spec_encode(
                    WireMessage::Control(RoundControl::Outcome { tick, report }),
                ))
            }),
            ev matches SessionEvent::Disconnected { side } ==> (!(old(self).round.state
                is Ended) ==> {
                let rev = RoundEvent::Disconnected { side };
                &&& final(self).round == crate::round::spec_round_step(old(self).round, rev)
                &&& MatchSession::spec_only_round_changed(*old(self), *final(self))
                &&& r@ == MatchSession::spec_round_acts(old(self).round, rev)
            }),
    {
        let mut actions: Vec<SessionAction> = Vec::new();
        if self.round.is_ended() {
            return actions;
        }
        match ev {
            SessionEvent::LocalStartReady => {
                self.step_round(RoundEvent::LocalStartReady, &mut actions);
                actions.push(
                    SessionAction::Send {
                        bytes: wire::encode(&WireMessage::Control(RoundControl::StartReady)),
                    },
                );
                proof {
                    assert(!(crate::round::spec_round_step(
                        old(self).round,
                        RoundEvent::LocalStartReady,
                    ).state is Ended));
                }
            },
            SessionEvent::LocalInput { input_bits, checksum } => {
                self.on_local_input(input_bits, checksum, &mut actions);
            },
            SessionEvent::WaitTimeout => {
                let first = self.sync.note_stall();
                if first {
                    actions.push(SessionAction::Stall);
                }
            },
            SessionEvent::LocalEnding => {
                let tick = self.sync.next_tick;
                self.step_round(RoundEvent::LocalEnding { tick }, &mut actions);
                actions.push(
                    SessionAction::Send {
                        bytes: wire::encode(&WireMessage::Control(RoundControl::Ending { tick })),
                    },
                );
                proof {
                    assert(actions@.subrange(0, actions@.len() - 1)
                        =~= MatchSession::spec_round_acts(
                        old(self).round,
                        RoundEvent::LocalEnding { tick },
                    ));
                }
            },
            SessionEvent::LocalOutcome { report } => {
                let tick = self.sync.next_tick;
                self.step_round(RoundEvent::LocalOutcome { tick, report }, &mut actions);
                actions.push(
                    SessionAction::Send {
                        bytes: wire::encode(
                            &WireMessage::Control(RoundControl::Outcome { tick, report }),
                        ),
                    },
                );
                proof {
                    assert(actions@.subrange(0, actions@.len() - 1)
                        =~= MatchSession::spec_round_acts(
                        old(self).round,
                        RoundEvent::LocalOutcome { tick, report },
                    ));
                }
            },
            SessionEvent::MessageReceived { bytes } => {
                self.on_message(&bytes, &mut actions);
            },
            SessionEvent::Disconnected { side } => {
                self.step_round(RoundEvent::Disconnected { side }, &mut actions);
                proof {
                    assert(actions@ =~= MatchSession::spec_round_acts(
                        old(self).round,
                        RoundEvent::Disconnected { side },
                    ));
                }
            },
        }
        actions
    }

    /// The input-read hook: build (once) and send this tick's local packet,
    /// then try to match it against the remote packet for the same tick.
    fn on_local_input(&mut self, input_bits: u16, checksum: Option<u32>, actions: &mut Vec<
        SessionAction,
    >)
        requires
            old(self).wf(),
            !(old(self).round.state is Ended),
            old(actions)@.len() == 0,
        ensures
            final(self).wf(),
            final(self).role == old(self).role,
            final(self).replay.records@.len() >= old(self).replay.records@.len(),
            final(self).replay.records@.subrange(0, old(self).replay.records@.len() as int) == old(
                self,
            ).replay.records@,
            forall|i: int|
                0 <= i < final(actions)@.len() ==> ((#[trigger] final(actions)@[i]) matches
                    SessionAction::Inject { packet } ==> {
                    &&& old(self).sync.pending@.len() > 0
                    &&& packet == old(self).sync.pending@[0]
                    &&& packet.tick == old(self).sync.next_tick
                }),
            forall|i: int|
                0 <= i < final(actions)@.len() ==> (!((#[trigger] final(actions)@[i]) is Stall)),
            forall|i: int|
                0 <= i < final(actions)@.len() ==> ((#[trigger] final(actions)@[i]) matches
                    SessionAction::Ended { outcome } ==> final(self).round.state == (
                RoundState::Ended { outcome })),
            MatchSession::spec_local_input_post(
                *old(self),
                *final(self),
                final(actions)@,
                input_bits,
                checksum,
            ),
    {
        if !(matches!(self.round.state, RoundState::InProgress) || matches!(
            self.round.state,
            RoundState::Ending,
        )) {
            return ;
        }
        if self.sync.next_tick == 0xFFFF_FFFFu32 {
            // The 32-bit tick space is exhausted; no further tick can be
            // committed, so the session ends as an unattributed failure.
            self.step_round(
                RoundEvent::Disconnected { side: Side::Unknown },
                actions,
            );
            return ;
        }
        let local = match self.pending_local {
            Some(p) => p,
            None => {
                // During `Ending` no further input is sampled from the
                // local player; the exchange continues with neutral input
                // so the peer's tail ticks can drain.
                let bits_effective: u16 = if matches!(self.round.state, RoundState::InProgress) {
                    input_bits
                } else {
                    0
                };
                let rng_draw: Option<u32> = if matches!(self.role, Role::Authority) {
                    Some(self.rng.draw())
                } else {
                    None
                };
                let p = self.sync.local_packet(bits_effective, checksum, rng_draw);
                self.pending_local = Some(p);
                actions.push(
                    SessionAction::Send { bytes: wire::encode(&WireMessage::Input(p)) },
                );
                p
            },
        };
        match self.sync.try_resolve(local) {
            ResolveResult::NotReady => {},
            ResolveResult::Desync { tick } => {
                self.step_round(RoundEvent::Desync { tick }, actions);
            },
            ResolveResult::Resolved { local: l, remote } => {
                if matches!(self.role, Role::Follower) {
                    if let Some(d) = remote.rng_draw {
                        self.rng.overwrite(d);
                    }
                }
                self.replay.append(l, remote);
                self.pending_local = None;
                actions.push(SessionAction::Inject { packet: remote });
            },
        }
    }

    /// One byte message from the transport.  Unknown tags and heartbeats
    /// are absorbed; a malformed frame or an impossible tick on this
    /// ordered channel is treated as a transport failure attributed to the
    /// remote side.
    fn on_message(&mut self, bytes: &Vec<u8>, actions: &mut Vec<SessionAction>)
        requires
            old(self).wf(),
            !(old(self).round.state is Ended),
            old(actions)@.len() == 0,
        ensures
            final(self).wf(),
            final(self).role == old(self).role,
            final(self).replay.records@ == old(self).replay.records@,
            forall|i: int|
                0 <= i < final(actions)@.len() ==> (!((#[trigger] final(actions)@[i]) is Inject)),
            forall|i: int|
                0 <= i < final(actions)@.len() ==> (!((#[trigger] final(actions)@[i]) is Stall)),
            forall|i: int|
                0 <= i < final(actions)@.len() ==> ((#[trigger] final(actions)@[i]) matches
                    SessionAction::Ended { outcome } ==> final(self).round.state == (
                RoundState::Ended { outcome })),
            MatchSession::spec_message_post(*old(self), *final(self), final(actions)@, bytes@),
    {
        match wire::decode(bytes.as_slice()) {
            Ok(Some(WireMessage::Input(p))) => {
                match self.sync.push_remote(p) {
                    PushResult::Accepted => {},
                    PushResult::Discarded => {},
                    PushResult::OutOfOrder | PushResult::BufferFull => {
                        self.step_round(
                            RoundEvent::Disconnected { side: Side::Remote },
                            actions,
                        );
                        proof {
                            assert(actions@ =~= MatchSession::spec_round_acts(
                                old(self).round,
                                RoundEvent::Disconnected { side: Side::Remote },
                            ));
                        }
                    },
                }
            },
            Ok(Some(WireMessage::Control(RoundControl::StartReady))) => {
                self.step_round(RoundEvent::RemoteStartReady, actions);
                proof {
                    assert(actions@ =~= MatchSession::spec_round_acts(
                        old(self).round,
                        RoundEvent::RemoteStartReady,
                    ));
                }
            },
            Ok(Some(WireMessage::Control(RoundControl::Ending { .. }))) => {
                // The remote is draining; our own ending hook drives the
                // local transition, so there is nothing to decide here.
            },
            Ok(Some(WireMessage::Control(RoundControl::Outcome { tick, report }))) => {
                self.step_round(RoundEvent::RemoteOutcome { tick, report }, actions);
                proof {
                    assert(actions@ =~= MatchSession::spec_round_acts(
                        old(self).round,
                        RoundEvent::RemoteOutcome { tick, report },
                    ));
                }
            },
            Ok(Some(WireMessage::Heartbeat)) => {},
            Ok(None) => {},
            Err(_) => {
                self.step_round(RoundEvent::Disconnected { side: Side::Remote }, actions);
                proof {
                    assert(actions@ =~= MatchSession::spec_round_acts(
                        old(self).round,
                        RoundEvent::Disconnected { side: Side::Remote },
                    ));
                }
            },
        }
    }
}

} // verus!
