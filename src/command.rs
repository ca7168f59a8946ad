//! Typed requests sent to the machine and typed responses read from it.

use vstd::prelude::*;

use crate::packet::{PartialDecode, PartialEncode};

verus! {

/// Leading body byte of a monitor (status) response.
pub const MONITOR_RESPONSE_ID: u8 = 0x75;

/// Shortest response body that carries a full monitor state: the two header
/// bytes and the ten state bytes up to the second load byte.
pub const MONITOR_RESPONSE_MIN_LEN: usize = 12;

pub enum Request {
    Brew(BrewRequest),
    Monitor(MonitorRequestVersion),
    State(StateRequest),
    Parameter(ParameterRequest),
    Raw(Vec<u8>),
}

#[derive(Debug, Clone, PartialEq, Eq)]
pub enum Response {
    State(MonitorState),
    Raw(Vec<u8>),
}

pub enum MonitorRequestVersion {
    V0,
    V1,
    V2,
}

pub enum StateRequest {
    TurnOn,
}

pub enum BrewRequest {
    Coffee(),
}

/// A parameter access. Its wire layout is defined by the parameter id table,
/// which this crate does not hold, so these requests have no encoding here.
pub enum ParameterRequest {
    ReadParameter(ParameterId, u8),
    WriteParameter(ParameterId),
}

#[allow(non_camel_case_types)]
pub enum ParameterId {
    WATER_HARDNESS,
}

#[derive(Debug, Clone, Copy, PartialEq, Eq, Structural)]
pub enum MachineState {
    StandBy,
    TurningOn,
    ShuttingDown,
    Descaling,
    SteamPreparation,
    Recovery,
    ReadyOrDispensing,
    Rinsing,
    MilkPreparation,
    HotWaterDelivery,
    MilkCleaning,
    Unknown(u8),
}

pub enum Accessory {
    NoAccessory,
    Water,
    Milk,
    Chocolate,
    MilkClean,
    Unknown(u8),
}

#[derive(Debug, Clone, PartialEq, Eq)]
pub struct MonitorState {
    pub state: MachineState,
    pub progress: u8,
    pub percentage: u8,
    pub load0: u8,
    pub load1: u8,
    pub raw: Vec<u8>,
}

/// The fixed body of the default coffee brew request.
pub open spec fn brew_coffee_body() -> Seq<u8> {
    seq![0x83u8, 0xf0u8, 0x02u8, 0x01u8, 0x01u8, 0x00u8, 0x67u8, 0x02u8, 0x02u8, 0x00u8, 0x00u8, 0x06u8]
}

impl BrewRequest {
    pub open spec fn spec_encode(&self) -> Seq<u8> {
        match self {
            BrewRequest::Coffee() => brew_coffee_body(),
        }
    }

    pub fn encode(&self) -> (r: Vec<u8>)
        ensures
            r@ == self.spec_encode(),
    {
        match *self {
            BrewRequest::Coffee() => {
                let r = vec![0x83u8, 0xf0, 0x02, 0x01, 0x01, 0x00, 0x67, 0x02, 0x02, 0x00, 0x00, 0x06];
                assert(r@ =~= brew_coffee_body());
                r
            },
        }
    }
}

impl MonitorRequestVersion {
    pub open spec fn spec_encode(&self) -> Seq<u8> {
        match self {
            MonitorRequestVersion::V0 => seq![0x60u8, 0x0fu8],
            MonitorRequestVersion::V1 => seq![0x70u8, 0x0fu8],
            MonitorRequestVersion::V2 => seq![0x75u8, 0x0fu8],
        }
    }

    pub fn encode(&self) -> (r: Vec<u8>)
        ensures
            r@ == self.spec_encode(),
    {
        let r = match *self {
            MonitorRequestVersion::V0 => vec![0x60u8, 0x0f],
            MonitorRequestVersion::V1 => vec![0x70u8, 0x0f],
            MonitorRequestVersion::V2 => vec![0x75u8, 0x0f],
        };
        assert(r@ =~= self.spec_encode());
        r
    }
}

impl StateRequest {
    pub open spec fn spec_encode(&self) -> Seq<u8> {
        match self {
            StateRequest::TurnOn => seq![0x84u8, 0x0fu8, 0x02u8, 0x01u8],
        }
    }

    pub fn encode(&self) -> (r: Vec<u8>)
        ensures
            r@ == self.spec_encode(),
    {
        match *self {
            StateRequest::TurnOn => {
                let r = vec![0x84u8, 0x0f, 0x02, 0x01];
                assert(r@ =~= self.spec_encode());
                r
            },
        }
    }
}

impl Request {
    /// Whether the request has a wire encoding (parameter requests have none).
    pub open spec fn encodable(&self) -> bool {
        !(self is Parameter)
    }

    pub open spec fn spec_encode(&self) -> Seq<u8> {
        match self {
            Request::Brew(r) => r.spec_encode(),
            Request::Monitor(r) => r.spec_encode(),
            Request::State(r) => r.spec_encode(),
            Request::Parameter(_) => Seq::empty(),
            Request::Raw(r) => r@,
        }
    }

    /// The body bytes of this request; a raw request is reproduced verbatim.
    pub fn encode(&self) -> (r: Vec<u8>)
        requires
            self.encodable(),
        ensures
            r@ == self.spec_encode(),
    {
        match self {
            Request::Brew(r) => r.encode(),
            Request::Monitor(r) => r.encode(),
            Request::State(r) => r.encode(),
            Request::Raw(r) => copy_bytes(r),
            Request::Parameter(_) => vstd::pervasive::unreached(),
        }
    }
}

/// A fresh vector holding the same bytes as `v`.
pub(crate) fn copy_bytes(v: &[u8]) -> (r: Vec<u8>)
    ensures
        r@ == v@,
{
    let mut r: Vec<u8> = Vec::new();
    let mut k: usize = 0;
    while k < v.len()
        invariant
            k <= v@.len(),
            r@ == v@.subrange(0, k as int),
        decreases v@.len() - k,
    {
        r.push(v[k]);
        k = k + 1;
        assert(r@ =~= v@.subrange(0, k as int));
    }
    assert(r@ =~= v@);
    r
}

impl MachineState {
    /// The fixed byte-to-state table; bytes outside it are kept as `Unknown`.
    pub open spec fn spec_decode(data: u8) -> MachineState {
        if data == 0 {
            MachineState::StandBy
        } else if data == 1 {
            MachineState::TurningOn
        } else if data == 2 {
            MachineState::ShuttingDown
        } else if data == 4 {
            MachineState::Descaling
        } else if data == 5 {
            MachineState::SteamPreparation
        } else if data == 6 {
            MachineState::Recovery
        } else if data == 7 {
            MachineState::ReadyOrDispensing
        } else if data == 8 {
            MachineState::Rinsing
        } else if data == 10 {
            MachineState::MilkPreparation
        } else if data == 11 {
            MachineState::HotWaterDelivery
        } else if data == 12 {
            MachineState::MilkCleaning
        } else {
            MachineState::Unknown(data)
        }
    }

    /// Whether `data` is one of the bytes of the decode table.
    pub open spec fn in_table(data: u8) -> bool {
        data <= 12 && data != 3 && data != 9
    }

    pub fn decode(data: u8) -> (r: MachineState)
        ensures
            r == MachineState::spec_decode(data),
    {
        match data {
            0 => MachineState::StandBy,
            1 => MachineState::TurningOn,
            2 => MachineState::ShuttingDown,
            4 => MachineState::Descaling,
            5 => MachineState::SteamPreparation,
            6 => MachineState::Recovery,
            7 => MachineState::ReadyOrDispensing,
            8 => MachineState::Rinsing,
            10 => MachineState::MilkPreparation,
            11 => MachineState::HotWaterDelivery,
            12 => MachineState::MilkCleaning,
            n => MachineState::Unknown(n),
        }
    }
}

/// A byte outside the decode table decodes to `Unknown` of that byte, and a
/// byte inside it never does.
pub proof fn lemma_unknown_state_fallthrough(b: u8)
    ensures
        !MachineState::in_table(b) ==> MachineState::spec_decode(b) == MachineState::Unknown(b),
        MachineState::in_table(b) ==> !(MachineState::spec_decode(b) is Unknown),
{
}

impl MonitorState {
    /// `self` is what `data` (a monitor body past its two header bytes)
    /// decodes to: state at offset 5, progress 6, percentage 7, loads 8 and 9.
    pub open spec fn decodes_from(&self, data: Seq<u8>) -> bool {
        &&& data.len() >= 10
        &&& self.state == MachineState::spec_decode(data[5])
        &&& self.progress == data[6]
        &&& self.percentage == data[7]
        &&& self.load0 == data[8]
        &&& self.load1 == data[9]
        &&& self.raw@ == data
    }

    pub fn decode(data: &[u8]) -> (r: MonitorState)
        requires
            data@.len() >= 10,
        ensures
            r.decodes_from(data@),
    {
        MonitorState {
            state: MachineState::decode(data[5]),
            progress: data[6],
            percentage: data[7],
            load0: data[8],
            load1: data[9],
            raw: copy_bytes(data),
        }
    }
}

impl Response {
    /// Whether `data` is a body that `decode` accepts: non-empty, and long
    /// enough for a monitor state when it leads with the monitor id.
    pub open spec fn decodable(data: Seq<u8>) -> bool {
        &&& data.len() >= 1
        &&& data[0] == MONITOR_RESPONSE_ID ==> data.len() >= MONITOR_RESPONSE_MIN_LEN
    }

    /// `self` is what body `data` decodes to.
    pub open spec fn decodes_from(&self, data: Seq<u8>) -> bool {
        if data[0] == MONITOR_RESPONSE_ID {
            &&& self is State
            &&& self->State_0.decodes_from(data.subrange(2, data.len() as int))
        } else {
            &&& self is Raw
            &&& self->Raw_0@ == data
        }
    }

    pub fn decode(data: &[u8]) -> (r: Response)
        requires
            Response::decodable(data@),
        ensures
            r.decodes_from(data@),
    {
        if data[0] == MONITOR_RESPONSE_ID {
            let rest = vstd::slice::slice_subrange(data, 2, data.len());
            Response::State(MonitorState::decode(rest))
        } else {
            Response::Raw(copy_bytes(data))
        }
    }
}

impl PartialDecode for Response {
    open spec fn spec_decodable(input: Seq<u8>) -> bool {
        Response::decodable(input)
    }

    open spec fn spec_decodes_to(input: Seq<u8>, value: Response) -> bool {
        value.decodes_from(input)
    }

    fn partial_decode(input: &[u8]) -> (r: Option<Response>) {
        if input.len() == 0 {
            None
        } else if input[0] == MONITOR_RESPONSE_ID && input.len() < MONITOR_RESPONSE_MIN_LEN {
            None
        } else {
            Some(Response::decode(input))
        }
    }
}

impl PartialEncode for Request {
    open spec fn spec_encodable(&self) -> bool {
        self.encodable()
    }

    open spec fn spec_encoding(&self) -> Seq<u8> {
        self.spec_encode()
    }

    fn encode(&self) -> (r: Vec<u8>) {
        Request::encode(self)
    }
}

} // verus!
