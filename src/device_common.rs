//! Options shared by every command that talks to a device.

use vstd::prelude::*;

use crate::ecam::EcamStatus;

verus! {

#[derive(Clone)]
pub struct DeviceCommon {
    pub device_name: String,
    pub dump_packets: bool,
    pub turn_on: bool,
    pub allow_off: bool,
}

/// What to do before an operation, given the machine's status.
#[derive(Debug, Clone, Copy, PartialEq, Eq, Structural)]
pub enum PowerDecision {
    /// Go ahead with the operation.
    Proceed,
    /// Turn the machine on and wait until it is ready first.
    TurnOn,
    /// The machine is off and neither turning it on nor running while off
    /// was asked for: stop with exit code 1.
    RefuseOff,
}

/// Process exit code when the machine is off and may not be used so.
pub const EXIT_MACHINE_OFF: i32 = 1;

impl DeviceCommon {
    /// The decision for a machine whose status is `status`.
    pub fn power_decision(&self, status: EcamStatus) -> (r: PowerDecision)
        ensures
            status != EcamStatus::StandBy ==> r == PowerDecision::Proceed,
            status == EcamStatus::StandBy && self.turn_on ==> r == PowerDecision::TurnOn,
            status == EcamStatus::StandBy && !self.turn_on && self.allow_off ==> r
                == PowerDecision::Proceed,
            status == EcamStatus::StandBy && !self.turn_on && !self.allow_off ==> r
                == PowerDecision::RefuseOff,
    {
        if status != EcamStatus::StandBy {
            PowerDecision::Proceed
        } else if self.turn_on {
            PowerDecision::TurnOn
        } else if self.allow_off {
            PowerDecision::Proceed
        } else {
            PowerDecision::RefuseOff
        }
    }
}

} // verus!
