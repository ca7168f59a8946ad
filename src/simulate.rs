//! An in-process simulated machine. It answers status requests with monitor
//! states and turns on over a fixed number of clock ticks; whoever drives it
//! supplies the clock.

use vstd::prelude::*;

use crate::command::{MonitorRequestVersion, Response, StateRequest};
use crate::ecam::{status_of, EcamStatus};

verus! {

/// Machine state byte: standing by.
pub const SIM_STANDBY: u8 = 0;

/// Machine state byte: turning on.
pub const SIM_TURNING_ON: u8 = 1;

/// Machine state byte: ready or dispensing.
pub const SIM_READY: u8 = 7;

/// Clock ticks from a turn-on request to readiness.
pub const TURN_ON_TICKS: u8 = 4;

/// Period of the simulator clock.
pub const SIM_TICK_MS: u64 = 250;

/// The monitor response body the simulator sends for a machine state byte:
/// header, then accessory and switch bytes, the state, and zero progress,
/// percentage, loads and trailing bytes.
pub open spec fn sim_monitor_body(state: u8) -> Seq<u8> {
    seq![0x75u8, 0x0fu8, 0u8, 0u8, 0u8, 0u8, 0u8, state, 0u8, 0u8, 0u8, 0u8, 0u8, 0u8, 0u8]
}

/// Whether a device name selects the simulator.
pub open spec fn is_simulator_name_spec(name: Seq<char>) -> bool {
    name.len() >= 3 && name[0] == 's' && name[1] == 'i' && name[2] == 'm'
}

/// Whether `name` starts with `sim`.
pub fn is_simulator_name(name: &str) -> (r: bool)
    ensures
        r == is_simulator_name_spec(name@),
{
    let n = name.unicode_len();
    n >= 3 && name.get_char(0) == 's' && name.get_char(1) == 'i' && name.get_char(2) == 'm'
}

pub struct EcamSimulator {
    name: String,
    state: u8,
    remaining: u8,
}

impl View for EcamSimulator {
    /// Device name, machine state byte, ticks left before readiness.
    type V = (Seq<char>, u8, u8);

    closed spec fn view(&self) -> (Seq<char>, u8, u8) {
        (self.name@, self.state, self.remaining)
    }
}

impl EcamSimulator {
    /// A turning machine still has ticks to go; no other state counts down.
    pub open spec fn wf(&self) -> bool {
        &&& self@.1 == SIM_STANDBY || self@.1 == SIM_TURNING_ON || self@.1 == SIM_READY
        &&& (self@.1 == SIM_TURNING_ON) <==> (self@.2 > 0)
    }

    /// A machine standing by, advertised under `name`.
    pub fn new(name: &str) -> (r: EcamSimulator)
        ensures
            r@ == (name@, SIM_STANDBY, 0u8),
            r.wf(),
    {
        EcamSimulator { name: name.to_owned(), state: SIM_STANDBY, remaining: 0 }
    }

    /// The advertised name and the identifier, which are the same.
    pub fn scan(&self) -> (r: (String, String))
        ensures
            r.0@ == self@.0,
            r.1@ == self@.0,
    {
        (self.name.clone(), self.name.clone())
    }

    /// Handles one request body: a status request is answered with the
    /// current monitor state, a turn-on request starts turning a standing-by
    /// machine on, and anything else is ignored.
    pub fn on_write(&mut self, body: &[u8]) -> (r: Option<Vec<u8>>)
        requires
            old(self).wf(),
        ensures
            final(self).wf(),
            final(self)@.0 == old(self)@.0,
            body@ == MonitorRequestVersion::V2.spec_encode() ==> r is Some && r->0@
                == sim_monitor_body(old(self)@.1) && final(self)@ == old(self)@,
            body@ == StateRequest::TurnOn.spec_encode() ==> r is None && if old(self)@.1
                == SIM_STANDBY {
                final(self)@ == (old(self)@.0, SIM_TURNING_ON, TURN_ON_TICKS)
            } else {
                final(self)@ == old(self)@
            },
            body@ != MonitorRequestVersion::V2.spec_encode() && body@
                != StateRequest::TurnOn.spec_encode() ==> r is None && final(self)@ == old(
                self,
            )@,
    {
        let status = MonitorRequestVersion::V2.encode();
        let turn_on = StateRequest::TurnOn.encode();
        if bytes_equal(body, status.as_slice()) {
            let s = self.state;
            let r = vec![0x75u8, 0x0f, 0, 0, 0, 0, 0, s, 0, 0, 0, 0, 0, 0, 0];
            assert(r@ =~= sim_monitor_body(s));
            Some(r)
        } else if bytes_equal(body, turn_on.as_slice()) {
            if self.state == SIM_STANDBY {
                self.state = SIM_TURNING_ON;
                self.remaining = TURN_ON_TICKS;
            }
            None
        } else {
            None
        }
    }

    /// Advances the clock by one tick.
    pub fn tick(&mut self)
        requires
            old(self).wf(),
        ensures
            final(self).wf(),
            final(self)@.0 == old(self)@.0,
            old(self)@.1 != SIM_TURNING_ON ==> final(self)@ == old(self)@,
            old(self)@.1 == SIM_TURNING_ON && old(self)@.2 > 1 ==> final(self)@ == (
                old(self)@.0,
                SIM_TURNING_ON,
                (old(self)@.2 - 1) as u8,
            ),
            old(self)@.1 == SIM_TURNING_ON && old(self)@.2 == 1 ==> final(self)@ == (
                old(self)@.0,
                SIM_READY,
                0u8,
            ),
    {
        if self.state == SIM_TURNING_ON {
            self.remaining = self.remaining - 1;
            if self.remaining == 0 {
                self.state = SIM_READY;
            }
        }
    }
}

/// A simulated monitor reply decodes, as a state, to the status of its
/// machine state: StandBy while standing by, Busy while turning on, Ready
/// once ready.
pub proof fn lemma_sim_reply_status(state: u8, r: Response)
    requires
        state == SIM_STANDBY || state == SIM_TURNING_ON || state == SIM_READY,
        r.decodes_from(sim_monitor_body(state)),
    ensures
        Response::decodable(sim_monitor_body(state)),
        r is State,
        state == SIM_STANDBY ==> status_of(r->State_0.state, r->State_0.progress)
            == EcamStatus::StandBy,
        state == SIM_TURNING_ON ==> status_of(r->State_0.state, r->State_0.progress)
            == EcamStatus::Busy,
        state == SIM_READY ==> status_of(r->State_0.state, r->State_0.progress)
            == EcamStatus::Ready,
{
    let b = sim_monitor_body(state);
    let d = b.subrange(2, b.len() as int);
    assert(d[5] == state);
    assert(d[6] == 0);
}

/// Whether two byte slices are equal.
fn bytes_equal(a: &[u8], b: &[u8]) -> (r: bool)
    ensures
        r == (a@ == b@),
{
    if a.len() != b.len() {
        return false;
    }
    let mut k: usize = 0;
    while k < a.len()
        invariant
            a@.len() == b@.len(),
            k <= a@.len(),
            a@.subrange(0, k as int) == b@.subrange(0, k as int),
        decreases a@.len() - k,
    {
        if a[k] != b[k] {
            assert(a@[k as int] != b@[k as int]);
            return false;
        }
        assert(a@.subrange(0, k + 1) =~= a@.subrange(0, k as int).push(a@[k as int]));
        assert(b@.subrange(0, k + 1) =~= b@.subrange(0, k as int).push(b@[k as int]));
        k = k + 1;
    }
    assert(a@ =~= a@.subrange(0, k as int));
    assert(b@ =~= b@.subrange(0, k as int));
    true
}

} // verus!
