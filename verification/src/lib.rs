//! Core of a lightweight host-status agent: the credential store and token gate, the
//! server lifecycle state, the hardware telemetry cache and the composition of the status
//! report. Every function here carries a contract that Verus proves; talking to the
//! operating system, the network and the user is left to the program around this crate.

pub mod auth;
pub mod components;
pub mod gate;
pub mod hardware_statistics;
pub mod laws;
pub mod network;
pub mod password;
pub mod recovery;
pub mod server;
pub mod status;
pub mod text;
pub mod token;
pub mod users;
