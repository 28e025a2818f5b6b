//! MIDI-over-loopback bridge between a multimedia driver and a synthesis
//! engine: the wire packet, the port/channel mapping, the load-progress
//! signal and the engine lifecycle, each with a machine-checked contract.

pub mod banks;
pub mod config;
pub mod console;
pub mod decimal;
pub mod driver;
pub mod engine;
pub mod lifecycle;
pub mod mapper;
pub mod packet;
pub mod progress;
pub mod render;
pub mod session;
pub mod settings;
pub mod startup;
