//! The download's main loop: serial console text, timing configuration,
//! the per-iteration phases, the smoltcp device adapter and the decisions of
//! the download state machine.

pub mod serial;
pub mod context;
pub mod phases;
pub mod runner;
pub mod state;
pub mod states;
pub mod disk_writer;
pub mod adapter;
pub mod orchestrator;
pub mod bare_metal;
pub mod bare_receive;
