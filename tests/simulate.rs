use longshot::command::{MonitorRequestVersion, Response, StateRequest};
use longshot::ecam::{EcamStatus, resolve_current_state};
use longshot::simulate::{is_simulator_name, EcamSimulator, SIM_TICK_MS, TURN_ON_TICKS};

fn status_of_reply(sim: &mut EcamSimulator) -> EcamStatus {
    let reply = sim.on_write(&MonitorRequestVersion::V2.encode()).expect("status reply");
    match Response::decode(&reply) {
        Response::State(s) => resolve_current_state(&Some(s)).unwrap(),
        other => panic!("unexpected {:?}", other),
    }
}

#[test]
fn scan_returns_simulated_device() {
    let sim = EcamSimulator::new("sim-1");
    assert_eq!(sim.scan(), ("sim-1".to_string(), "sim-1".to_string()));
}

#[test]
fn simulator_names() {
    assert!(is_simulator_name("sim-1"));
    assert!(is_simulator_name("sim"));
    assert!(!is_simulator_name("si"));
    assert!(!is_simulator_name("00:11:22"));
    assert!(!is_simulator_name("xsim"));
}

#[test]
fn turn_on_then_ready() {
    let mut sim = EcamSimulator::new("sim-1");
    assert_eq!(status_of_reply(&mut sim), EcamStatus::StandBy);
    assert_eq!(sim.on_write(&StateRequest::TurnOn.encode()), None);
    let mut ticks = 0u64;
    while status_of_reply(&mut sim) != EcamStatus::Ready {
        assert_eq!(status_of_reply(&mut sim), EcamStatus::Busy);
        sim.tick();
        ticks += 1;
        assert!(ticks <= 100);
    }
    assert_eq!(ticks, TURN_ON_TICKS as u64);
    assert!(ticks * SIM_TICK_MS <= 3000);
    // more ticks and turn-on requests keep it ready
    sim.tick();
    assert_eq!(sim.on_write(&StateRequest::TurnOn.encode()), None);
    assert_eq!(status_of_reply(&mut sim), EcamStatus::Ready);
}

#[test]
fn other_requests_are_ignored() {
    let mut sim = EcamSimulator::new("sim-2");
    assert_eq!(sim.on_write(&MonitorRequestVersion::V0.encode()), None);
    assert_eq!(sim.on_write(&[0x83, 0xf0]), None);
    assert_eq!(sim.on_write(&[]), None);
    sim.tick();
    assert_eq!(status_of_reply(&mut sim), EcamStatus::StandBy);
}
