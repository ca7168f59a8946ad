use longshot::command::{MachineState, MonitorState, Response};
use longshot::ecam::EcamStatus;

fn monitor_body(state: u8, progress: u8) -> Vec<u8> {
    vec![0x75, 0x0f, 0x01, 0x02, 0x03, 0x04, 0x05, state, progress, 0x37, 0x41, 0x42, 0x00]
}

#[test]
fn monitor_body_decodes_to_state() {
    let body = monitor_body(7, 3);
    match Response::decode(&body) {
        Response::State(s) => {
            assert_eq!(s.state, MachineState::ReadyOrDispensing);
            assert_eq!(s.progress, 3);
            assert_eq!(s.percentage, 0x37);
            assert_eq!(s.load0, 0x41);
            assert_eq!(s.load1, 0x42);
            assert_eq!(s.raw, body[2..].to_vec());
        }
        other => panic!("unexpected {:?}", other),
    }
}

#[test]
fn shortest_monitor_body_decodes() {
    let body = vec![0x75, 0x0f, 0, 0, 0, 0, 0, 0, 9, 8, 7, 6];
    assert_eq!(
        Response::decode(&body),
        Response::State(MonitorState {
            state: MachineState::StandBy,
            progress: 9,
            percentage: 8,
            load0: 7,
            load1: 6,
            raw: body[2..].to_vec(),
        })
    );
}

#[test]
fn other_leading_byte_is_raw() {
    for lead in [0x00u8, 0x60, 0x74, 0x76, 0x83, 0xff] {
        let body = vec![lead, 1, 2, 3];
        assert_eq!(Response::decode(&body), Response::Raw(body.clone()));
    }
    assert_eq!(Response::decode(&[0x95]), Response::Raw(vec![0x95]));
}

#[test]
fn machine_state_table() {
    let table = [
        (0u8, MachineState::StandBy),
        (1, MachineState::TurningOn),
        (2, MachineState::ShuttingDown),
        (4, MachineState::Descaling),
        (5, MachineState::SteamPreparation),
        (6, MachineState::Recovery),
        (7, MachineState::ReadyOrDispensing),
        (8, MachineState::Rinsing),
        (10, MachineState::MilkPreparation),
        (11, MachineState::HotWaterDelivery),
        (12, MachineState::MilkCleaning),
    ];
    for (b, s) in table.iter() {
        assert_eq!(MachineState::decode(*b), *s);
    }
}

#[test]
fn unknown_state_bytes_fall_through() {
    let table = [0u8, 1, 2, 4, 5, 6, 7, 8, 10, 11, 12];
    for b in 0..=255u8 {
        if !table.contains(&b) {
            assert_eq!(MachineState::decode(b), MachineState::Unknown(b));
        }
    }
    assert_eq!(MachineState::decode(3), MachineState::Unknown(3));
    assert_eq!(MachineState::decode(255), MachineState::Unknown(255));
}

fn state(s: MachineState, progress: u8) -> MonitorState {
    MonitorState { state: s, progress, percentage: 0, load0: 0, load1: 0, raw: vec![] }
}

#[test]
fn status_projection() {
    assert_eq!(EcamStatus::extract(&state(MachineState::StandBy, 0)), EcamStatus::StandBy);
    assert_eq!(EcamStatus::extract(&state(MachineState::StandBy, 5)), EcamStatus::StandBy);
    assert_eq!(EcamStatus::extract(&state(MachineState::ReadyOrDispensing, 0)), EcamStatus::Ready);
    assert_eq!(EcamStatus::extract(&state(MachineState::ReadyOrDispensing, 1)), EcamStatus::Busy);
    assert_eq!(EcamStatus::extract(&state(MachineState::TurningOn, 0)), EcamStatus::Busy);
    assert_eq!(EcamStatus::extract(&state(MachineState::Unknown(3), 0)), EcamStatus::Busy);
    assert!(EcamStatus::Ready.matches(&state(MachineState::ReadyOrDispensing, 0)));
    assert!(!EcamStatus::Ready.matches(&state(MachineState::ReadyOrDispensing, 2)));
    assert!(EcamStatus::Busy.matches(&state(MachineState::Descaling, 0)));
}
