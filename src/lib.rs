//! Control plane for background socket workers: an authentication
//! gatekeeper and a connection-event monitor, both driven over a strict
//! request/reply command channel.

pub mod auth;
pub mod channel;
pub mod command;
pub mod error;
pub mod events;
pub mod monitor;

pub use auth::ZAuth;
pub use channel::{CommandChannel, Phase, Step};
pub use command::Command;
pub use error::ControlError;
pub use events::ZMonitorEvents;
pub use monitor::{MonitorCommand, MonitorStage, ZMonitor, ZMonitorError};
