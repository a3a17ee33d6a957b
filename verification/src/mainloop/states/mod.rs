//! The download states' decisions: each step takes the state and what the
//! main loop observed (time, link, socket events) and gives the next state
//! and what to do.

pub mod connect;
pub mod dhcp;
pub mod dns;
pub mod http;
pub mod done;
pub mod init;
pub mod link;

pub use dhcp::DhcpState;
pub use dns::DnsState;
pub use done::{DoneState, FailedState};
pub use init::InitState;
pub use link::LinkWaitState;
pub mod gpt;
pub mod manifest;

pub use gpt::GptPrepState;
pub use manifest::{ManifestConfig, ManifestMode, ManifestState};
