//! The round lifecycle state machine.
//!
//! `AwaitingStart -> InProgress -> Ending -> Ended` driven by local hook
//! events and by the remote peer's mirrored control messages.  Transitions
//! are monotonic: `Ended` is terminal, and a round never re-enters
//! `InProgress`.

use vstd::prelude::*;
use crate::packet::WinnerReport;

verus! {

/// Which peer something is attributed to.
#[derive(Clone, Copy, Debug, PartialEq, Eq)]
pub enum Side {
    Local,
    Remote,
    Unknown,
}

/// Who won a round that ended normally.
#[derive(Clone, Copy, Debug, PartialEq, Eq)]
pub enum Winner {
    Local,
    Remote,
    Draw,
}

/// How a round ended.
#[derive(Clone, Copy, Debug, PartialEq, Eq)]
pub enum Outcome {
    /// Both peers' winner reports agreed.
    Decided { winner: Winner },
    /// The peers' views of the game diverged at `tick`; no side's view is
    /// picked over the other's.
    Desync { tick: u32 },
    /// The transport failed in a non-terminal state; `disconnected` names
    /// the side that dropped, when known.
    Forfeit { disconnected: Side },
}

/// The lifecycle of one round.
#[derive(Clone, Copy, Debug, PartialEq, Eq)]
pub enum RoundState {
    AwaitingStart,
    InProgress,
    Ending,
    Ended { outcome: Outcome },
}

/// Everything that can drive a round transition.
#[derive(Clone, Copy, Debug, PartialEq, Eq)]
pub enum RoundEvent {
    /// The local round-start hook fired: this side is ready to begin.
    LocalStartReady,
    /// The remote peer signalled its round start completed.
    RemoteStartReady,
    /// The local hook reported the round is concluding at `tick`; no further
    /// input is sampled locally after this.
    LocalEnding { tick: u32 },
    /// The local hook reported the round outcome at `tick`, from this side's
    /// perspective.
    LocalOutcome { tick: u32, report: WinnerReport },
    /// The remote peer reported the round outcome at `tick`, from its own
    /// perspective.
    RemoteOutcome { tick: u32, report: WinnerReport },
    /// A state divergence was detected at `tick` (checksum mismatch).
    Desync { tick: u32 },
    /// The transport reported a disconnection.
    Disconnected { side: Side },
}

/// The round machine: the lifecycle state plus what each peer has signalled
/// so far.
#[derive(Clone, Copy, Debug, PartialEq, Eq)]
pub struct RoundMachine {
    pub state: RoundState,
    pub local_ready: bool,
    pub remote_ready: bool,
    pub local_report: Option<(u32, WinnerReport)>,
    pub remote_report: Option<(u32, WinnerReport)>,
}

/// Combine the two peers' perspective-relative winner reports.  They are
/// consistent exactly when one claims the win the other concedes, or both
/// call a draw; anything else is a desync, never resolved by guessing.
pub open spec fn spec_combine_reports(local: WinnerReport, remote: WinnerReport) -> Option<Winner> {
    match (local, remote) {
        (WinnerReport::Mine, WinnerReport::Theirs) => Some(Winner::Local),
        (WinnerReport::Theirs, WinnerReport::Mine) => Some(Winner::Remote),
        (WinnerReport::Draw, WinnerReport::Draw) => Some(Winner::Draw),
        _ => None,
    }
}

/// Once a machine in `Ending` holds both reports, it resolves: to a decided
/// winner when the reports agree, to a desync at the later report's tick
/// when they do not.
pub open spec fn spec_try_resolve(m: RoundMachine) -> RoundMachine {
    match (m.state, m.local_report, m.remote_report) {
        (RoundState::Ending, Some((lt, lr)), Some((rt, rr))) => RoundMachine {
            state: match spec_combine_reports(lr, rr) {
                Some(w) => RoundState::Ended { outcome: Outcome::Decided { winner: w } },
                None => RoundState::Ended {
                    outcome: Outcome::Desync { tick: if lt >= rt { lt } else { rt } },
                },
            },
            ..m
        },
        _ => m,
    }
}

/// The transition function of the round machine.
pub open spec fn spec_round_step(m: RoundMachine, ev: RoundEvent) -> RoundMachine {
    if m.state is Ended {
        m
    } else {
        match ev {
            RoundEvent::LocalStartReady => {
                if m.state is AwaitingStart {
                    let m2 = RoundMachine { local_ready: true, ..m };
                    if m2.remote_ready {
                        RoundMachine { state: RoundState::InProgress, ..m2 }
                    } else {
                        m2
                    }
                } else {
                    m
                }
            },
            RoundEvent::RemoteStartReady => {
                if m.state is AwaitingStart {
                    let m2 = RoundMachine { remote_ready: true, ..m };
                    if m2.local_ready {
                        RoundMachine { state: RoundState::InProgress, ..m2 }
                    } else {
                        m2
                    }
                } else {
                    m
                }
            },
            RoundEvent::LocalEnding { tick } => {
                if m.state is InProgress {
                    spec_try_resolve(RoundMachine { state: RoundState::Ending, ..m })
                } else {
                    m
                }
            },
            RoundEvent::LocalOutcome { tick, report } => {
                if m.state is InProgress || m.state is Ending {
                    spec_try_resolve(
                        RoundMachine { local_report: Some((tick, report)), ..m },
                    )
                } else {
                    m
                }
            },
            RoundEvent::RemoteOutcome { tick, report } => {
                if m.state is InProgress || m.state is Ending {
                    spec_try_resolve(
                        RoundMachine { remote_report: Some((tick, report)), ..m },
                    )
                } else {
                    m
                }
            },
            RoundEvent::Desync { tick } => RoundMachine {
                state: RoundState::Ended { outcome: Outcome::Desync { tick } },
                ..m
            },
            RoundEvent::Disconnected { side } => RoundMachine {
                state: RoundState::Ended { outcome: Outcome::Forfeit { disconnected: side } },
                ..m
            },
        }
    }
}

impl RoundMachine {
    /// A fresh round: nothing signalled, both peers still starting.
    pub fn new() -> (r: RoundMachine)
        ensures
            r == (RoundMachine {
                state: RoundState::AwaitingStart,
                local_ready: false,
                remote_ready: false,
                local_report: None,
                remote_report: None,
            }),
    {
        RoundMachine {
            state: RoundState::AwaitingStart,
            local_ready: false,
            remote_ready: false,
            local_report: None,
            remote_report: None,
        }
    }

    /// Whether the round is over.
    pub fn is_ended(&self) -> (r: bool)
        ensures
            r == (self.state is Ended),
    {
        matches!(self.state, RoundState::Ended { .. })
    }

    fn try_resolve(&mut self)
        ensures
            *final(self) == spec_try_resolve(*old(self)),
    {
        if matches!(self.state, RoundState::Ending) {
            if let (Some((lt, lr)), Some((rt, rr))) = (self.local_report, self.remote_report) {
                self.state = match combine_reports(lr, rr) {
                    Some(w) => RoundState::Ended { outcome: Outcome::Decided { winner: w } },
                    None => RoundState::Ended {
                        outcome: Outcome::Desync { tick: if lt >= rt { lt } else { rt } },
                    },
                };
            }
        }
    }

    /// Apply one event.  `Ended` is terminal: an ended round ignores every
    /// further event.
    pub fn step(&mut self, ev: RoundEvent)
        ensures
            *final(self) == spec_round_step(*old(self), ev),
            old(self).state is Ended ==> *final(self) == *old(self),
    {
        if matches!(self.state, RoundState::Ended { .. }) {
            return ;
        }
        match ev {
            RoundEvent::LocalStartReady => {
                if matches!(self.state, RoundState::AwaitingStart) {
                    self.local_ready = true;
                    if self.remote_ready {
                        self.state = RoundState::InProgress;
                    }
                }
            },
            RoundEvent::RemoteStartReady => {
                if matches!(self.state, RoundState::AwaitingStart) {
                    self.remote_ready = true;
                    if self.local_ready {
                        self.state = RoundState::InProgress;
                    }
                }
            },
            RoundEvent::LocalEnding { tick: _ } => {
                if matches!(self.state, RoundState::InProgress) {
                    self.state = RoundState::Ending;
                    self.try_resolve();
                }
            },
            RoundEvent::LocalOutcome { tick, report } => {
                if matches!(self.state, RoundState::InProgress) || matches!(
                    self.state,
                    RoundState::Ending,
                ) {
                    self.local_report = Some((tick, report));
                    self.try_resolve();
                }
            },
            RoundEvent::RemoteOutcome { tick, report } => {
                if matches!(self.state, RoundState::InProgress) || matches!(
                    self.state,
                    RoundState::Ending,
                ) {
                    self.remote_report = Some((tick, report));
                    self.try_resolve();
                }
            },
            RoundEvent::Desync { tick } => {
                self.state = RoundState::Ended { outcome: Outcome::Desync { tick } };
            },
            RoundEvent::Disconnected { side } => {
                self.state = RoundState::Ended { outcome: Outcome::Forfeit { disconnected: side } };
            },
        }
    }
}

/// Exec form of `spec_combine_reports`.
pub fn combine_reports(local: WinnerReport, remote: WinnerReport) -> (r: Option<Winner>)
    ensures
        r == spec_combine_reports(local, remote),
{
    match (local, remote) {
        (WinnerReport::Mine, WinnerReport::Theirs) => Some(Winner::Local),
        (WinnerReport::Theirs, WinnerReport::Mine) => Some(Winner::Remote),
        (WinnerReport::Draw, WinnerReport::Draw) => Some(Winner::Draw),
        _ => None,
    }
}

/// Round state never leaves `Ended`: every event maps an ended machine to
/// itself, and no sequence of events re-enters `InProgress` from `Ended`.
pub proof fn lemma_ended_terminal(m: RoundMachine, ev: RoundEvent)
    ensures
        m.state is Ended ==> spec_round_step(m, ev) == m,
{
}

/// Terminality over whole event sequences: once ended, a machine is fixed
/// under any further events.
pub proof fn lemma_ended_terminal_seq(m: RoundMachine, evs: Seq<RoundEvent>)
    requires
        m.state is Ended,
    ensures
        spec_round_run(m, evs) == m,
    decreases evs.len(),
{
    if evs.len() > 0 {
        lemma_ended_terminal_seq(spec_round_step(m, evs[0]), evs.drop_first());
    }
}

/// Fold a sequence of events through the machine.
pub open spec fn spec_round_run(m: RoundMachine, evs: Seq<RoundEvent>) -> RoundMachine
    decreases evs.len(),
{
    if evs.len() == 0 {
        m
    } else {
        spec_round_run(spec_round_step(m, evs[0]), evs.drop_first())
    }
}

} // verus!
