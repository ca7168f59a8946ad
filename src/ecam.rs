//! Decisions of a device session: the status projection, what the inbound
//! pump does with each driver event, when the status poller transmits, the
//! alive latch and the ready gate. The tasks that act on these decisions run
//! outside the verified core; they hand each event in and perform the action
//! that comes back.

use vstd::prelude::*;

use crate::command::{MachineState, MonitorState, Response};
use crate::packet::{EcamDriverPacket, EcamPacket};

verus! {

/// Pause of the status poller while nobody observes the state.
pub const IDLE_POLL_MS: u64 = 100;

/// Deadline of one status request write.
pub const STATUS_WRITE_TIMEOUT_MS: u64 = 250;

/// Pause after a status request was written. The device loses commands when
/// polled faster.
pub const STATUS_POLL_INTERVAL_MS: u64 = 250;

/// Capacity of the broadcast tap of driver outputs.
pub const PACKET_TAP_CAPACITY: usize = 100;

/// User-facing machine status.
#[derive(Debug, Clone, Copy, PartialEq, Eq, Structural)]
pub enum EcamStatus {
    Unknown,
    StandBy,
    Ready,
    Busy,
}

/// Errors surfaced at the session boundary. The transport kinds carry the
/// description of their cause.
#[derive(Debug, Clone, PartialEq, Eq)]
pub enum EcamError {
    NotFound,
    BTError(String),
    IOError(String),
    Unknown,
}

/// The status that a machine state and progress project to.
pub open spec fn status_of(state: MachineState, progress: u8) -> EcamStatus {
    if state == MachineState::StandBy {
        EcamStatus::StandBy
    } else if state == MachineState::ReadyOrDispensing && progress == 0 {
        EcamStatus::Ready
    } else {
        EcamStatus::Busy
    }
}

impl EcamStatus {
    pub fn extract(state: &MonitorState) -> (r: EcamStatus)
        ensures
            r == status_of(state.state, state.progress),
    {
        if state.state == MachineState::StandBy {
            return EcamStatus::StandBy;
        }
        if state.state == MachineState::ReadyOrDispensing && state.progress == 0 {
            return EcamStatus::Ready;
        }
        EcamStatus::Busy
    }

    pub fn matches(&self, state: &MonitorState) -> (r: bool)
        ensures
            r == (*self == status_of(state.state, state.progress)),
    {
        *self == Self::extract(state)
    }

    /// The status name, as displayed.
    pub fn as_str(&self) -> (r: &'static str)
        ensures
            *self == EcamStatus::Unknown ==> r@ == "Unknown"@,
            *self == EcamStatus::StandBy ==> r@ == "StandBy"@,
            *self == EcamStatus::Ready ==> r@ == "Ready"@,
            *self == EcamStatus::Busy ==> r@ == "Busy"@,
    {
        match self {
            EcamStatus::Unknown => "Unknown",
            EcamStatus::StandBy => "StandBy",
            EcamStatus::Ready => "Ready",
            EcamStatus::Busy => "Busy",
        }
    }
}

/// A monitor state projects to StandBy exactly when the machine stands by,
/// to Ready exactly when it is ready with no progress, and to Busy otherwise;
/// never to Unknown.
pub proof fn lemma_status_projection(s: MonitorState)
    ensures
        (status_of(s.state, s.progress) == EcamStatus::StandBy) <==> (s.state
            == MachineState::StandBy),
        (status_of(s.state, s.progress) == EcamStatus::Ready) <==> (s.state
            == MachineState::ReadyOrDispensing && s.progress == 0),
        (status_of(s.state, s.progress) == EcamStatus::Busy) <==> !(s.state
            == MachineState::StandBy || (s.state == MachineState::ReadyOrDispensing && s.progress
            == 0)),
        status_of(s.state, s.progress) != EcamStatus::Unknown,
{
}

/// What `current_state` reports once the ready gate has let it through: the
/// projection of the last state seen, or `Unknown` when none was ever seen.
pub fn resolve_current_state(last: &Option<MonitorState>) -> (r: Result<EcamStatus, EcamError>)
    ensures
        last is None ==> r == Err::<EcamStatus, EcamError>(EcamError::Unknown),
        last is Some ==> r == Ok::<EcamStatus, EcamError>(
            status_of(last->0.state, last->0.progress),
        ),
{
    match last {
        Some(s) => Ok(EcamStatus::extract(s)),
        None => Err(EcamError::Unknown),
    }
}

/// Whether `wait_for_state(target)` may return on this snapshot.
pub fn state_reached(target: EcamStatus, last: &Option<MonitorState>) -> (r: bool)
    ensures
        r == (last is Some && target == status_of(last->0.state, last->0.progress)),
{
    match last {
        Some(s) => target.matches(s),
        None => false,
    }
}

/// One event of a driver.
#[derive(Debug, Clone)]
pub enum EcamDriverOutput {
    Ready,
    Packet(EcamDriverPacket),
    Done,
}

/// One driver event with its body decoded, as the session fans it out.
#[derive(Debug, Clone)]
pub enum EcamOutput {
    Ready,
    Packet(EcamPacket<Response>),
    Done,
}

impl EcamOutput {
    /// Decodes the body of a driver packet; the other events carry over.
    pub fn from_driver(o: EcamDriverOutput) -> (r: EcamOutput)
        ensures
            (o is Ready) <==> (r is Ready),
            (o is Done) <==> (r is Done),
            o is Packet ==> r is Packet && r->Packet_0.bytes@ == o->Packet_0@ && (
            r->Packet_0.representation is Some <==> Response::decodable(o->Packet_0@)) && (
            r->Packet_0.representation is Some ==> r->Packet_0.representation->0.decodes_from(
                o->Packet_0@,
            )),
    {
        match o {
            EcamDriverOutput::Ready => EcamOutput::Ready,
            EcamDriverOutput::Packet(p) => EcamOutput::Packet(EcamPacket::from_bytes(p.bytes())),
            EcamDriverOutput::Done => EcamOutput::Done,
        }
    }
}

/// Whether `o` carries a decoded monitor state.
pub open spec fn is_state_output(o: EcamOutput) -> bool {
    &&& o is Packet
    &&& o->Packet_0.representation is Some
    &&& o->Packet_0.representation->0 is State
}

/// What the inbound pump does after forwarding an event to the tap.
#[derive(Debug, Clone, Copy, PartialEq, Eq, Structural)]
pub enum PumpAction {
    /// First `Ready`: spawn the status poller.
    StartPolling,
    /// A further `Ready`: warn and ignore it.
    DuplicateReady,
    /// A monitor state: publish it and release the ready gate.
    PublishState,
    /// Any other packet.
    Ignore,
    /// The session is over: stop pumping.
    Exit,
}

/// What the status poller does at the head of its loop.
#[derive(Debug, Clone, Copy, PartialEq, Eq, Structural)]
pub enum PollAction {
    /// The session is dead: stop, clearing the latch.
    Exit,
    /// Nobody observes the state: sleep `IDLE_POLL_MS`.
    Idle,
    /// Write a status request within `STATUS_WRITE_TIMEOUT_MS`.
    SendStatusRequest,
}

/// How a status request write ended.
#[derive(Debug, Clone, Copy, PartialEq, Eq, Structural)]
pub enum WriteOutcome {
    Sent,
    Failed,
    TimedOut,
}

/// Pause of the poller after a status request write: the polling interval
/// after a success, none after a failure or a timeout (which warn).
pub fn delay_after_write(outcome: WriteOutcome) -> (r: u64)
    ensures
        outcome == WriteOutcome::Sent ==> r == STATUS_POLL_INTERVAL_MS,
        outcome != WriteOutcome::Sent ==> r == 0,
{
    match outcome {
        WriteOutcome::Sent => STATUS_POLL_INTERVAL_MS,
        _ => 0,
    }
}

/// The decision state of a session: the alive latch, whether the poller was
/// started, and whether the ready gate was released.
#[derive(Debug, Clone, Copy, PartialEq, Eq, Structural)]
pub struct SessionState {
    pub alive: bool,
    pub started: bool,
    pub gate_open: bool,
}

/// An event that changes the session state.
pub enum SessionEvent {
    /// The pump read this output from the driver.
    Output(EcamOutput),
    /// The last handle was dropped, or the poller stopped.
    Deaden,
}

impl SessionState {
    /// Alive, no poller, gate held.
    pub open spec fn initial() -> SessionState {
        SessionState { alive: true, started: false, gate_open: false }
    }

    /// The pump's step on one driver output.
    pub open spec fn next(self, o: EcamOutput) -> (SessionState, PumpAction) {
        if !self.alive {
            (self, PumpAction::Exit)
        } else {
            match o {
                EcamOutput::Ready => if self.started {
                    (self, PumpAction::DuplicateReady)
                } else {
                    (SessionState { started: true, ..self }, PumpAction::StartPolling)
                },
                EcamOutput::Done => (SessionState { alive: false, ..self }, PumpAction::Exit),
                EcamOutput::Packet(_) => if is_state_output(o) {
                    (SessionState { gate_open: true, ..self }, PumpAction::PublishState)
                } else {
                    (self, PumpAction::Ignore)
                },
            }
        }
    }

    /// The state after one session event.
    pub open spec fn apply(self, ev: SessionEvent) -> SessionState {
        match ev {
            SessionEvent::Output(o) => self.next(o).0,
            SessionEvent::Deaden => SessionState { alive: false, ..self },
        }
    }

    /// The action the pump takes on one session event (none on a deaden).
    pub open spec fn action(self, ev: SessionEvent) -> Option<PumpAction> {
        match ev {
            SessionEvent::Output(o) => Some(self.next(o).1),
            SessionEvent::Deaden => None,
        }
    }

    pub fn new() -> (r: SessionState)
        ensures
            r == SessionState::initial(),
    {
        SessionState { alive: true, started: false, gate_open: false }
    }

    pub fn is_alive(&self) -> (r: bool)
        ensures
            r == self.alive,
    {
        self.alive
    }

    /// Clears the alive latch; nothing sets it again.
    pub fn deaden(&mut self)
        ensures
            *final(self) == old(self).apply(SessionEvent::Deaden),
    {
        self.alive = false;
    }

    /// The pump's step: records the event and says what to do with it.
    pub fn on_output(&mut self, o: &EcamOutput) -> (r: PumpAction)
        ensures
            (*final(self), r) == old(self).next(*o),
    {
        if !self.alive {
            return PumpAction::Exit;
        }
        match o {
            EcamOutput::Ready => {
                if self.started {
                    PumpAction::DuplicateReady
                } else {
                    self.started = true;
                    PumpAction::StartPolling
                }
            },
            EcamOutput::Done => {
                self.alive = false;
                PumpAction::Exit
            },
            EcamOutput::Packet(p) => {
                match &p.representation {
                    Some(Response::State(_)) => {
                        self.gate_open = true;
                        PumpAction::PublishState
                    },
                    _ => PumpAction::Ignore,
                }
            },
        }
    }

    /// The poller's decision at the head of its loop, given the number of
    /// outstanding state observers.
    pub fn poll_action(&self, interest: usize) -> (r: PollAction)
        ensures
            !self.alive ==> r == PollAction::Exit,
            self.alive && interest == 0 ==> r == PollAction::Idle,
            self.alive && interest > 0 ==> r == PollAction::SendStatusRequest,
    {
        if !self.alive {
            PollAction::Exit
        } else if interest == 0 {
            PollAction::Idle
        } else {
            PollAction::SendStatusRequest
        }
    }
}

/// The session state after a sequence of events.
pub open spec fn session_run(s: SessionState, evs: Seq<SessionEvent>) -> SessionState
    decreases evs.len(),
{
    if evs.len() == 0 {
        s
    } else {
        session_run(s, evs.drop_last()).apply(evs.last())
    }
}

/// How many times the pump decided to start the poller over a sequence.
pub open spec fn poller_starts(s: SessionState, evs: Seq<SessionEvent>) -> nat
    decreases evs.len(),
{
    if evs.len() == 0 {
        0
    } else {
        poller_starts(s, evs.drop_last()) + if session_run(s, evs.drop_last()).action(evs.last())
            == Some(PumpAction::StartPolling) {
            1nat
        } else {
            0nat
        }
    }
}

/// At most one poller per session, whatever the drivers emit: none at all
/// once one was started, and one started means the state records it.
pub proof fn lemma_at_most_one_poller(s: SessionState, evs: Seq<SessionEvent>)
    ensures
        poller_starts(s, evs) <= 1,
        s.started ==> poller_starts(s, evs) == 0,
        poller_starts(s, evs) == 1 ==> session_run(s, evs).started,
        s.started ==> session_run(s, evs).started,
    decreases evs.len(),
{
    if evs.len() > 0 {
        lemma_at_most_one_poller(s, evs.drop_last());
    }
}

/// The alive latch is monotonic: once cleared after some prefix of events, it
/// stays cleared after every longer prefix, and the pump only exits.
pub proof fn lemma_alive_latch(s: SessionState, evs: Seq<SessionEvent>, i: int, j: int)
    requires
        0 <= i <= j <= evs.len(),
        !session_run(s, evs.take(i)).alive,
    ensures
        !session_run(s, evs.take(j)).alive,
        j < evs.len() ==> session_run(s, evs.take(j)).action(evs[j]) is None
            || session_run(s, evs.take(j)).action(evs[j]) == Some(PumpAction::Exit),
    decreases j - i,
{
    if j > i {
        lemma_alive_latch(s, evs, i, j - 1);
        assert(evs.take(j).drop_last() =~= evs.take(j - 1));
        assert(evs.take(j).last() == evs[j - 1]);
    }
}

/// Whether a session event delivers a decoded monitor state.
pub open spec fn carries_state(ev: SessionEvent) -> bool {
    match ev {
        SessionEvent::Output(o) => is_state_output(o),
        SessionEvent::Deaden => false,
    }
}

/// The ready gate opens only on a monitor state: if it was held before a
/// sequence of events and is open after it, one of them carried a state.
pub proof fn lemma_gate_needs_state(s: SessionState, evs: Seq<SessionEvent>)
    requires
        !s.gate_open,
        session_run(s, evs).gate_open,
    ensures
        exists|k: int|
            0 <= k < evs.len() && carries_state(#[trigger] evs[k]),
    decreases evs.len(),
{
    let prev = evs.drop_last();
    if session_run(s, prev).gate_open {
        lemma_gate_needs_state(s, prev);
        let k = choose|k: int|
            0 <= k < prev.len() && carries_state(#[trigger] prev[k]);
        assert(evs[k] == prev[k]);
    } else {
        assert(evs[evs.len() - 1] == evs.last());
    }
}

/// Count of outstanding state observers; the poller transmits only while it
/// is positive.
pub struct StatusInterest {
    count: usize,
}

impl View for StatusInterest {
    type V = nat;

    closed spec fn view(&self) -> nat {
        self.count as nat
    }
}

impl StatusInterest {
    pub fn new() -> (r: StatusInterest)
        ensures
            r@ == 0,
    {
        StatusInterest { count: 0 }
    }

    /// Registers one more observer.
    pub fn lock(&mut self)
        requires
            old(self)@ < usize::MAX,
        ensures
            final(self)@ == old(self)@ + 1,
    {
        self.count = self.count + 1;
    }

    /// Unregisters one observer.
    pub fn release(&mut self)
        requires
            old(self)@ > 0,
        ensures
            final(self)@ == old(self)@ - 1,
    {
        self.count = self.count - 1;
    }

    pub fn count(&self) -> (r: usize)
        ensures
            r == self@,
    {
        self.count
    }
}

} // verus!
