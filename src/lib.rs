//! Communication core for ECAM espresso machines: the framed wire codec,
//! the typed request/response model, frame re-synchronisation over a byte
//! stream, the simulated machine, and the decisions of a device session.

pub mod bluetooth;
pub mod command;
pub mod device_common;
pub mod ecam;
pub mod mqtt;
pub mod packet;
pub mod packet_stream;
pub mod simulate;
